use user_workspace_api::models::CreateUserPayload;
use user_workspace_api::models::CreateWorkspacePayload;
use user_workspace_api::models::Workspace;
use user_workspace_api::response::HttpResponse;
use user_workspace_api::response::ResponseBody;
use user_workspace_api::store::Store;
use user_workspace_api::user_api::create_user;
use user_workspace_api::user_api::delete_user;
use user_workspace_api::workspace_api::create_workspace;
use user_workspace_api::workspace_api::get_all_workspaces;
use user_workspace_api::workspace_api::get_workspace;

fn seeded_store() -> (Store, u128) {
    let mut store = Store::new();
    let r = create_user(
        &mut store,
        Some(CreateUserPayload {
            username: "ada".to_string(),
            name: "Ada".to_string(),
            mail: "ada@example.org".to_string(),
        }),
        1,
    );
    let owner = match r.body {
        ResponseBody::UserBody(u) => u.id,
        _ => panic!("expected a user body"),
    };
    (store, owner)
}

fn expect_workspace(r: HttpResponse) -> Workspace {
    assert_eq!(r.status, 200);
    match r.body {
        ResponseBody::WorkspaceBody(w) => w,
        _ => panic!("expected a workspace body"),
    }
}

fn expect_error(r: HttpResponse, status: u16, code: &str) -> String {
    assert_eq!(r.status, status);
    match r.body {
        ResponseBody::ErrorBody { error_code, error_message } => {
            assert_eq!(error_code, code);
            error_message
        },
        _ => panic!("expected an error body"),
    }
}

#[test]
fn create_workspace_returns_submitted_fields() {
    let (mut store, owner) = seeded_store();
    let p = CreateWorkspacePayload { name: "research".to_string(), created_by: owner };
    let w = expect_workspace(create_workspace(&mut store, Some(p), 5));
    assert_eq!(w.name, "research");
    assert_eq!(w.created_by, owner);
    assert_eq!(w.created_at, 5);
    assert_eq!(w.modified_at, 5);
    let fetched = expect_workspace(get_workspace(&store, Some(w.id)));
    assert_eq!(fetched.name, "research");
}

#[test]
fn workspace_with_unknown_owner_is_bad_request() {
    let (mut store, owner) = seeded_store();
    let p = CreateWorkspacePayload { name: "research".to_string(), created_by: owner + 1000 };
    let r = create_workspace(&mut store, Some(p), 5);
    let msg = expect_error(r, 400, "BadRequest");
    assert_eq!(msg, "created_by does not reference an existing user");
}

#[test]
fn get_missing_workspace_is_not_found() {
    let (store, _) = seeded_store();
    let r = get_workspace(&store, Some(77));
    let msg = expect_error(r, 404, "NotFound");
    assert_eq!(msg, "Model with id 00000000-0000-0000-0000-00000000004d could not be found");
}

#[test]
fn missing_workspace_body_is_bad_request() {
    let (mut store, _) = seeded_store();
    let r = create_workspace(&mut store, None, 1);
    let msg = expect_error(r, 400, "BadRequest");
    assert_eq!(msg, "Invalid request body");
}

#[test]
fn overlong_workspace_name_is_bad_request() {
    let (mut store, owner) = seeded_store();
    let p = CreateWorkspacePayload { name: "x".repeat(251), created_by: owner };
    let r = create_workspace(&mut store, Some(p), 1);
    let msg = expect_error(r, 400, "BadRequest");
    assert_eq!(msg, "Payload fields exceed declared lengths");
}

#[test]
fn listing_returns_all_workspaces() {
    let (mut store, owner) = seeded_store();
    expect_workspace(create_workspace(
        &mut store,
        Some(CreateWorkspacePayload { name: "alpha".to_string(), created_by: owner }),
        1,
    ));
    expect_workspace(create_workspace(
        &mut store,
        Some(CreateWorkspacePayload { name: "beta".to_string(), created_by: owner }),
        2,
    ));
    let r = get_all_workspaces(&store);
    assert_eq!(r.status, 200);
    let list = match r.body {
        ResponseBody::WorkspaceListBody(list) => list,
        _ => panic!("expected a workspace list body"),
    };
    assert_eq!(list.len(), 2);
    assert!(list.iter().any(|w| w.name == "alpha"));
    assert!(list.iter().any(|w| w.name == "beta"));
}

#[test]
fn deleting_referenced_user_is_server_fault() {
    let (mut store, owner) = seeded_store();
    expect_workspace(create_workspace(
        &mut store,
        Some(CreateWorkspacePayload { name: "alpha".to_string(), created_by: owner }),
        1,
    ));
    let r = delete_user(&mut store, Some(owner));
    let msg = expect_error(r, 500, "InternalServerError");
    assert_eq!(msg, "Internal Server Error");
    let listing = get_all_workspaces(&store);
    match listing.body {
        ResponseBody::WorkspaceListBody(list) => assert_eq!(list.len(), 1),
        _ => panic!("expected a workspace list body"),
    }
}

#[test]
fn malformed_workspace_path_id_is_bad_request() {
    let (store, _) = seeded_store();
    let msg = expect_error(get_workspace(&store, None), 400, "BadRequest");
    assert_eq!(msg, "Invalid id in path");
}
