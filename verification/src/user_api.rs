//! The user routes. Each handler is one linear pipeline over a decoded
//! request: reject an input that failed to decode, validate the payload
//! shape, run the store operation, and either serialize the record or map
//! the failure through the error taxonomy. `user_id` is the path id as the
//! transport decoded it — absent when the path did not carry a well-formed
//! uuid; a body payload is absent when it did not decode against the input
//! shape.

use vstd::prelude::*;
use vstd::string::StringExecFns;

use crate::models::CreateUserPayload;
use crate::models::CreateUserPayloadView;
use crate::models::UpdateUserPayload;
use crate::models::UpdateUserPayloadView;
use crate::models::UserView;
use crate::models::merged_update;
use crate::models::valid_create_user;
use crate::models::valid_update_user;
use crate::models::validate_create_user;
use crate::models::validate_update_user;
use crate::response::ApiError;
use crate::response::HttpResponse;
use crate::response::ResponseBody;
use crate::response::duplicate_user_message;
use crate::response::invalid_body_message;
use crate::response::invalid_lengths_message;
use crate::response::invalid_path_id_message;
use crate::response::is_bad_request;
use crate::response::is_internal_error;
use crate::response::is_not_found;
use crate::response::map_store_error;
use crate::store::Store;
use crate::store::StoreView;
use crate::store::mail_taken;
use crate::store::mail_taken_except;
use crate::store::store_wf;
use crate::store::user_id_exists;
use crate::store::user_index_of;
use crate::store::user_views;
use crate::store::username_taken;
use crate::store::username_taken_except;

verus! {

/// The views of an optional create payload.
pub open spec fn opt_create_user_view(p: Option<CreateUserPayload>) -> Option<
    CreateUserPayloadView,
> {
    match p {
        None => None,
        Some(q) => Some(q@),
    }
}

/// The views of an optional update payload.
pub open spec fn opt_update_user_view(p: Option<UpdateUserPayload>) -> Option<
    UpdateUserPayloadView,
> {
    match p {
        None => None,
        Some(q) => Some(q@),
    }
}

/// What `GET /users/{id}` answers: 400 for a path id that is no uuid, the
/// row with status 200 when one carries the id, 404 otherwise.
pub open spec fn get_user_response(s: StoreView, user_id: Option<u128>, r: HttpResponse) -> bool {
    match user_id {
        None => is_bad_request(r, invalid_path_id_message()),
        Some(id) => {
            if user_id_exists(s.users, id) {
                &&& r.status == 200
                &&& r.body matches ResponseBody::UserBody(u) && u@ == s.users[user_index_of(
                    s.users,
                    id,
                )]
            } else {
                is_not_found(r, id)
            }
        },
    }
}

/// Handles `GET /users/{id}`.
pub fn get_user(store: &Store, user_id: Option<u128>) -> (r: HttpResponse)
    requires
        store_wf(store@),
    ensures
        get_user_response(store@, user_id, r),
{
    let id: u128 = match user_id {
        None => {
            return ApiError::BadRequest(String::from_str("Invalid id in path")).into_response();
        },
        Some(id) => id,
    };
    match store.get_user(id) {
        Ok(u) => HttpResponse { status: 200, body: ResponseBody::UserBody(u) },
        Err(e) => map_store_error(e, id).into_response(),
    }
}

/// What `GET /users` answers: status 200 with exactly the stored rows.
pub open spec fn get_users_response(s: StoreView, r: HttpResponse) -> bool {
    &&& r.status == 200
    &&& r.body matches ResponseBody::UserListBody(list) && user_views(list@) == s.users
}

/// Handles `GET /users`.
pub fn get_users(store: &Store) -> (r: HttpResponse)
    requires
        store_wf(store@),
    ensures
        get_users_response(store@, r),
{
    HttpResponse { status: 200, body: ResponseBody::UserListBody(store.list_users()) }
}

/// What `POST /users` does: 400 and an unchanged store for a body that did
/// not decode, a payload out of shape, or a duplicate username or mail
/// address; 500 and an unchanged store when the store cannot assign an id;
/// otherwise status 200 with the new row — the payload's fields, a fresh
/// id, both timestamps set to `now` — appended to the store.
pub open spec fn create_user_response(
    pre: StoreView,
    post: StoreView,
    payload: Option<CreateUserPayloadView>,
    now: int,
    r: HttpResponse,
) -> bool {
    match payload {
        None => post == pre && is_bad_request(r, invalid_body_message()),
        Some(p) => {
            if !valid_create_user(p) {
                post == pre && is_bad_request(r, invalid_lengths_message())
            } else if username_taken(pre.users, p.username) || mail_taken(pre.users, p.mail) {
                post == pre && is_bad_request(r, duplicate_user_message())
            } else if pre.next_id == u64::MAX as int {
                post == pre && is_internal_error(r)
            } else {
                &&& r.status == 200
                &&& r.body matches ResponseBody::UserBody(u) && ({
                    &&& u@.username == p.username
                    &&& u@.name == p.name
                    &&& u@.mail == p.mail
                    &&& u@.created_at == now
                    &&& u@.modified_at == now
                    &&& !user_id_exists(pre.users, u@.id)
                    &&& post.users == pre.users.push(u@)
                })
                &&& post.workspaces == pre.workspaces
                &&& post.next_id == pre.next_id + 1
            }
        },
    }
}

/// Handles `POST /users`. `payload` is the decoded body, absent when the
/// body was not valid JSON for the input shape; `now` is the clock reading
/// that stamps both timestamps.
pub fn create_user(store: &mut Store, payload: Option<CreateUserPayload>, now: i64) -> (r:
    HttpResponse)
    requires
        store_wf(old(store)@),
    ensures
        store_wf(final(store)@),
        create_user_response(
            old(store)@,
            final(store)@,
            opt_create_user_view(payload),
            now as int,
            r,
        ),
{
    let p: CreateUserPayload = match payload {
        None => {
            return ApiError::BadRequest(String::from_str("Invalid request body")).into_response();
        },
        Some(p) => p,
    };
    if !validate_create_user(&p) {
        return ApiError::BadRequest(
            String::from_str("Payload fields exceed declared lengths"),
        ).into_response();
    }
    match store.insert_user(&p, now) {
        Ok(u) => HttpResponse { status: 200, body: ResponseBody::UserBody(u) },
        Err(e) => map_store_error(e, 0).into_response(),
    }
}

/// What `PATCH /users/{id}` does: 400 and an unchanged store for a path id
/// that is no uuid, a body that did not decode, or a patch out of shape;
/// 404 and an unchanged store when no row carries the id; 500 and an
/// unchanged store when the merged username or mail address would collide
/// with another row; otherwise status 200 with the one replaced row — the
/// patch overlaid on the current values, id and `created_at` kept,
/// `modified_at` stamped with `now`.
pub open spec fn update_user_response(
    pre: StoreView,
    post: StoreView,
    user_id: Option<u128>,
    payload: Option<UpdateUserPayloadView>,
    now: int,
    r: HttpResponse,
) -> bool {
    match user_id {
        None => post == pre && is_bad_request(r, invalid_path_id_message()),
        Some(id) => match payload {
            None => post == pre && is_bad_request(r, invalid_body_message()),
            Some(p) => {
                if !valid_update_user(p) {
                    post == pre && is_bad_request(r, invalid_lengths_message())
                } else if !user_id_exists(pre.users, id) {
                    post == pre && is_not_found(r, id)
                } else {
                    let i = user_index_of(pre.users, id);
                    let m = merged_update(pre.users[i], p);
                    if username_taken_except(pre.users, m.username, i) || mail_taken_except(
                        pre.users,
                        m.mail,
                        i,
                    ) {
                        post == pre && is_internal_error(r)
                    } else {
                        &&& r.status == 200
                        &&& r.body matches ResponseBody::UserBody(u) && ({
                            &&& u@ == (UserView {
                                id,
                                username: m.username,
                                name: m.name,
                                mail: m.mail,
                                created_at: pre.users[i].created_at,
                                modified_at: now,
                            })
                            &&& post.users == pre.users.update(i, u@)
                        })
                        &&& post.workspaces == pre.workspaces
                        &&& post.next_id == pre.next_id
                    }
                }
            },
        },
    }
}

/// Handles `PATCH /users/{id}`.
pub fn update_user(
    store: &mut Store,
    user_id: Option<u128>,
    payload: Option<UpdateUserPayload>,
    now: i64,
) -> (r: HttpResponse)
    requires
        store_wf(old(store)@),
    ensures
        store_wf(final(store)@),
        update_user_response(
            old(store)@,
            final(store)@,
            user_id,
            opt_update_user_view(payload),
            now as int,
            r,
        ),
{
    let id: u128 = match user_id {
        None => {
            return ApiError::BadRequest(String::from_str("Invalid id in path")).into_response();
        },
        Some(id) => id,
    };
    let p: UpdateUserPayload = match payload {
        None => {
            return ApiError::BadRequest(String::from_str("Invalid request body")).into_response();
        },
        Some(p) => p,
    };
    if !validate_update_user(&p) {
        return ApiError::BadRequest(
            String::from_str("Payload fields exceed declared lengths"),
        ).into_response();
    }
    match store.update_user(id, &p, now) {
        Ok(u) => HttpResponse { status: 200, body: ResponseBody::UserBody(u) },
        Err(e) => map_store_error(e, id).into_response(),
    }
}

/// What `DELETE /users/{id}` does: 400 and an unchanged store for a path id
/// that is no uuid; 404 and an unchanged store when no row carries the id;
/// 500 and an unchanged store when a workspace still references the row;
/// otherwise status 200 with an empty body, exactly the addressed row
/// removed, and no row with that id remaining.
pub open spec fn delete_user_response(
    pre: StoreView,
    post: StoreView,
    user_id: Option<u128>,
    r: HttpResponse,
) -> bool {
    match user_id {
        None => post == pre && is_bad_request(r, invalid_path_id_message()),
        Some(id) => {
            if !user_id_exists(pre.users, id) {
                post == pre && is_not_found(r, id)
            } else if crate::store::user_referenced(pre.workspaces, id) {
                post == pre && is_internal_error(r)
            } else {
                &&& r.status == 200
                &&& r.body matches ResponseBody::EmptyBody
                &&& post.users == pre.users.remove(user_index_of(pre.users, id))
                &&& !user_id_exists(post.users, id)
                &&& post.workspaces == pre.workspaces
                &&& post.next_id == pre.next_id
            }
        },
    }
}

/// Handles `DELETE /users/{id}`.
pub fn delete_user(store: &mut Store, user_id: Option<u128>) -> (r: HttpResponse)
    requires
        store_wf(old(store)@),
    ensures
        store_wf(final(store)@),
        delete_user_response(old(store)@, final(store)@, user_id, r),
{
    let id: u128 = match user_id {
        None => {
            return ApiError::BadRequest(String::from_str("Invalid id in path")).into_response();
        },
        Some(id) => id,
    };
    match store.delete_user(id) {
        Ok(_) => HttpResponse { status: 200, body: ResponseBody::EmptyBody },
        Err(e) => map_store_error(e, id).into_response(),
    }
}

} // verus!
