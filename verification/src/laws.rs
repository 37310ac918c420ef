//! Laws that relate several requests, proved over the handlers' contracts:
//! what one request's postcondition promises about the next request's
//! behavior.

use vstd::prelude::*;

use crate::models::CreateUserPayloadView;
use crate::models::UpdateUserPayloadView;
use crate::response::HttpResponse;
use crate::response::ResponseBody;
use crate::response::is_bad_request_code;
use crate::response::is_not_found;
use crate::store::StoreView;
use crate::store::store_wf;
use crate::store::user_id_exists;
use crate::store::user_index_of;
use crate::store::user_views;
use crate::store::username_taken;
use crate::store::mail_taken;
use crate::user_api::create_user_response;
use crate::user_api::delete_user_response;
use crate::user_api::get_user_response;
use crate::user_api::get_users_response;
use crate::user_api::update_user_response;

verus! {

/// Law: once a create has succeeded, a second create whose payload repeats
/// the first one's username or mail address answers 400 with code
/// `BadRequest` and leaves the store unchanged.
pub proof fn lemma_duplicate_create_rejected(
    s0: StoreView,
    s1: StoreView,
    s2: StoreView,
    p1: CreateUserPayloadView,
    p2: CreateUserPayloadView,
    now1: int,
    now2: int,
    r1: HttpResponse,
    r2: HttpResponse,
)
    requires
        create_user_response(s0, s1, Some(p1), now1, r1),
        r1.status == 200,
        create_user_response(s1, s2, Some(p2), now2, r2),
        p2.username == p1.username || p2.mail == p1.mail,
    ensures
        is_bad_request_code(r2),
        s2 == s1,
{
    let u = choose|u: crate::models::User| r1.body == ResponseBody::UserBody(u);
    let last = s0.users.len() as int;
    assert(s1.users[last].username == p1.username && s1.users[last].mail == p1.mail);
    assert(username_taken(s1.users, p2.username) || mail_taken(s1.users, p2.mail));
}

/// Law: a successful patch that carries only `name` changes only `name` —
/// the username and mail address of the patched row, every other row, and
/// the row count are all as before the patch.
pub proof fn lemma_patch_changes_only_name(
    s0: StoreView,
    s1: StoreView,
    id: u128,
    p: UpdateUserPayloadView,
    now: int,
    r: HttpResponse,
)
    requires
        store_wf(s0),
        update_user_response(s0, s1, Some(id), Some(p), now, r),
        r.status == 200,
        p.username is None,
        p.mail is None,
        p.name is Some,
    ensures
        user_id_exists(s0.users, id),
        s1.users.len() == s0.users.len(),
        ({
            let i = user_index_of(s0.users, id);
            &&& s1.users[i].username == s0.users[i].username
            &&& s1.users[i].mail == s0.users[i].mail
            &&& s1.users[i].id == s0.users[i].id
            &&& Some(s1.users[i].name) == p.name
            &&& forall|j: int|
                0 <= j < s0.users.len() && j != i ==> #[trigger] s1.users[j] == s0.users[j]
        }),
{
}

/// Law: once a delete has succeeded, a read of the same id answers 404 with
/// code `NotFound`.
pub proof fn lemma_delete_then_get_not_found(
    s0: StoreView,
    s1: StoreView,
    id: u128,
    r1: HttpResponse,
    r2: HttpResponse,
)
    requires
        delete_user_response(s0, s1, Some(id), r1),
        r1.status == 200,
        get_user_response(s1, Some(id), r2),
    ensures
        is_not_found(r2, id),
        r2.status == 404,
{
}

/// Law: a successful create keeps every row already stored and appends the
/// new one, so the listing after it holds all the earlier rows — in
/// particular, listing after N successful creates holds at least those N
/// rows.
pub proof fn lemma_listing_after_create_keeps_rows(
    s0: StoreView,
    s1: StoreView,
    p: CreateUserPayloadView,
    now: int,
    r1: HttpResponse,
    r2: HttpResponse,
)
    requires
        create_user_response(s0, s1, Some(p), now, r1),
        r1.status == 200,
        get_users_response(s1, r2),
    ensures
        r2.body matches ResponseBody::UserListBody(list) && ({
            &&& user_views(list@).len() == s0.users.len() + 1
            &&& forall|j: int|
                0 <= j < s0.users.len() ==> #[trigger] user_views(list@)[j] == s0.users[j]
        }),
{
}

} // verus!
