use user_workspace_api::models::CreateUserPayload;
use user_workspace_api::models::UpdateUserPayload;
use user_workspace_api::models::User;
use user_workspace_api::response::HttpResponse;
use user_workspace_api::response::ResponseBody;
use user_workspace_api::store::Store;
use user_workspace_api::user_api::create_user;
use user_workspace_api::user_api::delete_user;
use user_workspace_api::user_api::get_user;
use user_workspace_api::user_api::get_users;
use user_workspace_api::user_api::update_user;

fn payload(username: &str, name: &str, mail: &str) -> CreateUserPayload {
    CreateUserPayload {
        username: username.to_string(),
        name: name.to_string(),
        mail: mail.to_string(),
    }
}

fn expect_user(r: HttpResponse) -> User {
    assert_eq!(r.status, 200);
    match r.body {
        ResponseBody::UserBody(u) => u,
        _ => panic!("expected a user body"),
    }
}

fn expect_error(r: HttpResponse, status: u16, code: &str) -> String {
    assert_eq!(r.status, status);
    match r.body {
        ResponseBody::ErrorBody { error_code, error_message } => {
            assert_eq!(error_code, code);
            error_message
        },
        _ => panic!("expected an error body"),
    }
}

#[test]
fn create_returns_submitted_fields_and_populated_metadata() {
    let mut store = Store::new();
    let r = create_user(&mut store, Some(payload("ada", "Ada Lovelace", "ada@example.org")), 7);
    let u = expect_user(r);
    assert_eq!(u.username, "ada");
    assert_eq!(u.name, "Ada Lovelace");
    assert_eq!(u.mail, "ada@example.org");
    assert_eq!(u.created_at, 7);
    assert_eq!(u.modified_at, 7);
    let fetched = expect_user(get_user(&store, Some(u.id)));
    assert_eq!(fetched.username, "ada");
}

#[test]
fn duplicate_username_is_bad_request() {
    let mut store = Store::new();
    expect_user(create_user(&mut store, Some(payload("ada", "Ada", "ada@example.org")), 1));
    let r = create_user(&mut store, Some(payload("ada", "Other", "other@example.org")), 2);
    let msg = expect_error(r, 400, "BadRequest");
    assert_eq!(msg, "Username and/or e-mail is already taken");
}

#[test]
fn duplicate_mail_is_bad_request() {
    let mut store = Store::new();
    expect_user(create_user(&mut store, Some(payload("ada", "Ada", "ada@example.org")), 1));
    let r = create_user(&mut store, Some(payload("grace", "Grace", "ada@example.org")), 2);
    let msg = expect_error(r, 400, "BadRequest");
    assert_eq!(msg, "Username and/or e-mail is already taken");
}

#[test]
fn get_missing_user_is_not_found_with_rendered_id() {
    let store = Store::new();
    let r = get_user(&store, Some(5));
    let msg = expect_error(r, 404, "NotFound");
    assert_eq!(msg, "Model with id 00000000-0000-0000-0000-000000000005 could not be found");
}

#[test]
fn patch_with_name_only_changes_only_name() {
    let mut store = Store::new();
    let u = expect_user(create_user(&mut store, Some(payload("ada", "Ada", "ada@example.org")), 1));
    let patch = UpdateUserPayload { username: None, name: Some("Countess".to_string()), mail: None };
    let updated = expect_user(update_user(&mut store, Some(u.id), Some(patch), 9));
    assert_eq!(updated.username, "ada");
    assert_eq!(updated.name, "Countess");
    assert_eq!(updated.mail, "ada@example.org");
    assert_eq!(updated.created_at, 1);
    assert_eq!(updated.modified_at, 9);
    let fetched = expect_user(get_user(&store, Some(u.id)));
    assert_eq!(fetched.username, "ada");
    assert_eq!(fetched.name, "Countess");
    assert_eq!(fetched.mail, "ada@example.org");
}

#[test]
fn patch_replaces_every_provided_field() {
    let mut store = Store::new();
    let u = expect_user(create_user(&mut store, Some(payload("ada", "Ada", "ada@example.org")), 1));
    let patch = UpdateUserPayload {
        username: Some("lovelace".to_string()),
        name: Some("A. Lovelace".to_string()),
        mail: Some("lovelace@example.org".to_string()),
    };
    let updated = expect_user(update_user(&mut store, Some(u.id), Some(patch), 3));
    assert_eq!(updated.username, "lovelace");
    assert_eq!(updated.name, "A. Lovelace");
    assert_eq!(updated.mail, "lovelace@example.org");
}

#[test]
fn patch_of_missing_user_is_not_found() {
    let mut store = Store::new();
    let patch = UpdateUserPayload { username: None, name: Some("X".to_string()), mail: None };
    let r = update_user(&mut store, Some(33), Some(patch), 1);
    expect_error(r, 404, "NotFound");
}

#[test]
fn patch_to_taken_username_is_server_fault() {
    let mut store = Store::new();
    expect_user(create_user(&mut store, Some(payload("ada", "Ada", "ada@example.org")), 1));
    let u = expect_user(create_user(&mut store, Some(payload("grace", "Grace", "g@example.org")), 2));
    let patch = UpdateUserPayload { username: Some("ada".to_string()), name: None, mail: None };
    let r = update_user(&mut store, Some(u.id), Some(patch), 3);
    let msg = expect_error(r, 500, "InternalServerError");
    assert_eq!(msg, "Internal Server Error");
}

#[test]
fn delete_then_get_is_not_found() {
    let mut store = Store::new();
    let u = expect_user(create_user(&mut store, Some(payload("ada", "Ada", "ada@example.org")), 1));
    let r = delete_user(&mut store, Some(u.id));
    assert_eq!(r.status, 200);
    assert!(matches!(r.body, ResponseBody::EmptyBody));
    let r2 = get_user(&store, Some(u.id));
    expect_error(r2, 404, "NotFound");
}

#[test]
fn delete_of_missing_user_is_not_found() {
    let mut store = Store::new();
    let r = delete_user(&mut store, Some(9));
    expect_error(r, 404, "NotFound");
}

#[test]
fn listing_after_creates_contains_all_created_users() {
    let mut store = Store::new();
    expect_user(create_user(&mut store, Some(payload("ada", "Ada", "ada@example.org")), 1));
    expect_user(create_user(&mut store, Some(payload("grace", "Grace", "g@example.org")), 2));
    expect_user(create_user(&mut store, Some(payload("alan", "Alan", "alan@example.org")), 3));
    let r = get_users(&store);
    assert_eq!(r.status, 200);
    let list = match r.body {
        ResponseBody::UserListBody(list) => list,
        _ => panic!("expected a user list body"),
    };
    assert_eq!(list.len(), 3);
    for username in ["ada", "grace", "alan"] {
        assert!(list.iter().any(|u| u.username == username));
    }
}

#[test]
fn missing_body_is_bad_request_before_any_store_change() {
    let mut store = Store::new();
    let r = create_user(&mut store, None, 1);
    let msg = expect_error(r, 400, "BadRequest");
    assert_eq!(msg, "Invalid request body");
    let r2 = get_users(&store);
    match r2.body {
        ResponseBody::UserListBody(list) => assert_eq!(list.len(), 0),
        _ => panic!("expected a user list body"),
    }
}

#[test]
fn missing_patch_body_is_bad_request() {
    let mut store = Store::new();
    let u = expect_user(create_user(&mut store, Some(payload("ada", "Ada", "ada@example.org")), 1));
    let r = update_user(&mut store, Some(u.id), None, 2);
    let msg = expect_error(r, 400, "BadRequest");
    assert_eq!(msg, "Invalid request body");
}

#[test]
fn malformed_path_id_is_bad_request() {
    let store = Store::new();
    let msg = expect_error(get_user(&store, None), 400, "BadRequest");
    assert_eq!(msg, "Invalid id in path");
    let mut store = Store::new();
    expect_error(delete_user(&mut store, None), 400, "BadRequest");
    expect_error(update_user(&mut store, None, None, 1), 400, "BadRequest");
}

#[test]
fn overlong_username_is_bad_request() {
    let mut store = Store::new();
    let long = "x".repeat(101);
    let r = create_user(&mut store, Some(payload(&long, "Ada", "ada@example.org")), 1);
    let msg = expect_error(r, 400, "BadRequest");
    assert_eq!(msg, "Payload fields exceed declared lengths");
}

#[test]
fn longest_allowed_fields_are_accepted() {
    let mut store = Store::new();
    let username = "u".repeat(100);
    let name = "n".repeat(250);
    let mail = "m".repeat(250);
    let u = expect_user(create_user(&mut store, Some(payload(&username, &name, &mail)), 1));
    assert_eq!(u.username.len(), 100);
    assert_eq!(u.name.len(), 250);
    assert_eq!(u.mail.len(), 250);
}

#[test]
fn overlong_patch_field_is_bad_request() {
    let mut store = Store::new();
    let u = expect_user(create_user(&mut store, Some(payload("ada", "Ada", "ada@example.org")), 1));
    let patch = UpdateUserPayload { username: None, name: Some("x".repeat(251)), mail: None };
    let r = update_user(&mut store, Some(u.id), Some(patch), 2);
    let msg = expect_error(r, 400, "BadRequest");
    assert_eq!(msg, "Payload fields exceed declared lengths");
}

#[test]
fn created_users_get_distinct_ids() {
    let mut store = Store::new();
    let a = expect_user(create_user(&mut store, Some(payload("ada", "Ada", "a@example.org")), 1));
    let b = expect_user(create_user(&mut store, Some(payload("grace", "Grace", "g@example.org")), 1));
    assert_ne!(a.id, b.id);
}
