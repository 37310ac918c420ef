//! The workspace routes: list, read and create. Workspaces have no update
//! and no delete route; the asymmetry is part of the service's surface.

use vstd::prelude::*;
use vstd::string::StringExecFns;

use crate::models::CreateWorkspacePayload;
use crate::models::CreateWorkspacePayloadView;
use crate::models::valid_create_workspace;
use crate::models::validate_create_workspace;
use crate::response::ApiError;
use crate::response::HttpResponse;
use crate::response::ResponseBody;
use crate::response::invalid_body_message;
use crate::response::invalid_lengths_message;
use crate::response::invalid_path_id_message;
use crate::response::is_bad_request;
use crate::response::is_internal_error;
use crate::response::is_not_found;
use crate::response::map_store_error;
use crate::response::unknown_owner_message;
use crate::store::Store;
use crate::store::StoreView;
use crate::store::store_wf;
use crate::store::user_id_exists;
use crate::store::workspace_id_exists;
use crate::store::workspace_index_of;
use crate::store::workspace_views;

verus! {

/// The views of an optional create payload.
pub open spec fn opt_create_workspace_view(p: Option<CreateWorkspacePayload>) -> Option<
    CreateWorkspacePayloadView,
> {
    match p {
        None => None,
        Some(q) => Some(q@),
    }
}

/// What `GET /workspaces` answers: status 200 with exactly the stored rows.
pub open spec fn get_all_workspaces_response(s: StoreView, r: HttpResponse) -> bool {
    &&& r.status == 200
    &&& r.body matches ResponseBody::WorkspaceListBody(list) && workspace_views(list@)
        == s.workspaces
}

/// Handles `GET /workspaces`.
pub fn get_all_workspaces(store: &Store) -> (r: HttpResponse)
    requires
        store_wf(store@),
    ensures
        get_all_workspaces_response(store@, r),
{
    HttpResponse { status: 200, body: ResponseBody::WorkspaceListBody(store.list_workspaces()) }
}

/// What `GET /workspaces/{id}` answers: 400 for a path id that is no uuid,
/// the row with status 200 when one carries the id, 404 otherwise.
pub open spec fn get_workspace_response(
    s: StoreView,
    workspace_id: Option<u128>,
    r: HttpResponse,
) -> bool {
    match workspace_id {
        None => is_bad_request(r, invalid_path_id_message()),
        Some(id) => {
            if workspace_id_exists(s.workspaces, id) {
                &&& r.status == 200
                &&& r.body matches ResponseBody::WorkspaceBody(w) && w@ == s.workspaces[
                    workspace_index_of(s.workspaces, id)
                ]
            } else {
                is_not_found(r, id)
            }
        },
    }
}

/// Handles `GET /workspaces/{id}`.
pub fn get_workspace(store: &Store, workspace_id: Option<u128>) -> (r: HttpResponse)
    requires
        store_wf(store@),
    ensures
        get_workspace_response(store@, workspace_id, r),
{
    let id: u128 = match workspace_id {
        None => {
            return ApiError::BadRequest(String::from_str("Invalid id in path")).into_response();
        },
        Some(id) => id,
    };
    match store.get_workspace(id) {
        Ok(w) => HttpResponse { status: 200, body: ResponseBody::WorkspaceBody(w) },
        Err(e) => map_store_error(e, id).into_response(),
    }
}

/// What `POST /workspaces` does: 400 and an unchanged store for a body that
/// did not decode, a payload out of shape, or a `created_by` matching no
/// user; 500 and an unchanged store when the store cannot assign an id;
/// otherwise status 200 with the new row — the payload's fields, a fresh
/// id, both timestamps set to `now` — appended to the store.
pub open spec fn create_workspace_response(
    pre: StoreView,
    post: StoreView,
    payload: Option<CreateWorkspacePayloadView>,
    now: int,
    r: HttpResponse,
) -> bool {
    match payload {
        None => post == pre && is_bad_request(r, invalid_body_message()),
        Some(p) => {
            if !valid_create_workspace(p) {
                post == pre && is_bad_request(r, invalid_lengths_message())
            } else if !user_id_exists(pre.users, p.created_by) {
                post == pre && is_bad_request(r, unknown_owner_message())
            } else if pre.next_id == u64::MAX as int {
                post == pre && is_internal_error(r)
            } else {
                &&& r.status == 200
                &&& r.body matches ResponseBody::WorkspaceBody(w) && ({
                    &&& w@.name == p.name
                    &&& w@.created_by == p.created_by
                    &&& w@.created_at == now
                    &&& w@.modified_at == now
                    &&& !workspace_id_exists(pre.workspaces, w@.id)
                    &&& post.workspaces == pre.workspaces.push(w@)
                })
                &&& post.users == pre.users
                &&& post.next_id == pre.next_id + 1
            }
        },
    }
}

/// Handles `POST /workspaces`. `payload` is the decoded body, absent when
/// the body was not valid JSON for the input shape; `now` is the clock
/// reading that stamps both timestamps.
pub fn create_workspace(store: &mut Store, payload: Option<CreateWorkspacePayload>, now: i64) -> (r:
    HttpResponse)
    requires
        store_wf(old(store)@),
    ensures
        store_wf(final(store)@),
        create_workspace_response(
            old(store)@,
            final(store)@,
            opt_create_workspace_view(payload),
            now as int,
            r,
        ),
{
    let p: CreateWorkspacePayload = match payload {
        None => {
            return ApiError::BadRequest(String::from_str("Invalid request body")).into_response();
        },
        Some(p) => p,
    };
    if !validate_create_workspace(&p) {
        return ApiError::BadRequest(
            String::from_str("Payload fields exceed declared lengths"),
        ).into_response();
    }
    match store.insert_workspace(&p, now) {
        Ok(w) => HttpResponse { status: 200, body: ResponseBody::WorkspaceBody(w) },
        Err(e) => map_store_error(e, 0).into_response(),
    }
}

} // verus!
