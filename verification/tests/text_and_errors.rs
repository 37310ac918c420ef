use user_workspace_api::models::merge_user_update;
use user_workspace_api::models::CreateUserPayload;
use user_workspace_api::models::UpdateUserPayload;
use user_workspace_api::models::User;
use user_workspace_api::response::handler_404;
use user_workspace_api::response::map_store_error;
use user_workspace_api::response::ResponseBody;
use user_workspace_api::store::StoreError;
use user_workspace_api::uuid_text::parse_uuid;
use user_workspace_api::uuid_text::uuid_string;

#[test]
fn uuid_string_of_zero_is_all_zero_groups() {
    assert_eq!(uuid_string(0), "00000000-0000-0000-0000-000000000000");
}

#[test]
fn uuid_string_renders_every_nibble_in_order() {
    let id: u128 = 0x12345678_9abc_def0_1234_56789abcdef0;
    assert_eq!(uuid_string(id), "12345678-9abc-def0-1234-56789abcdef0");
}

#[test]
fn uuid_string_of_max_value_is_all_f() {
    assert_eq!(uuid_string(u128::MAX), "ffffffff-ffff-ffff-ffff-ffffffffffff");
}

#[test]
fn parse_uuid_reads_lowercase() {
    let id = parse_uuid("12345678-9abc-def0-1234-56789abcdef0");
    assert_eq!(id, Some(0x12345678_9abc_def0_1234_56789abcdef0));
}

#[test]
fn parse_uuid_reads_uppercase() {
    let id = parse_uuid("12345678-9ABC-DEF0-1234-56789ABCDEF0");
    assert_eq!(id, Some(0x12345678_9abc_def0_1234_56789abcdef0));
}

#[test]
fn parse_uuid_round_trips_rendered_ids() {
    for id in [0u128, 5, 77, 0xdead_beef, u128::MAX, u128::MAX - 17] {
        assert_eq!(parse_uuid(&uuid_string(id)), Some(id));
    }
}

#[test]
fn parse_uuid_rejects_malformed_text() {
    assert_eq!(parse_uuid(""), None);
    assert_eq!(parse_uuid("12345678-9abc-def0-1234-56789abcdef"), None);
    assert_eq!(parse_uuid("12345678-9abc-def0-1234-56789abcdef00"), None);
    assert_eq!(parse_uuid("12345678x9abc-def0-1234-56789abcdef0"), None);
    assert_eq!(parse_uuid("12345678-9abc-def0-1234-56789abcdeg0"), None);
    assert_eq!(parse_uuid("1234567-89abc-def0-1234-56789abcdef0"), None);
}

#[test]
fn store_errors_map_to_the_three_response_kinds() {
    let r = map_store_error(StoreError::UniqueViolation, 0).into_response();
    assert_eq!(r.status, 400);
    match r.body {
        ResponseBody::ErrorBody { error_code, error_message } => {
            assert_eq!(error_code, "BadRequest");
            assert_eq!(error_message, "Username and/or e-mail is already taken");
        },
        _ => panic!("expected an error body"),
    }

    let r = map_store_error(StoreError::ForeignKeyViolation, 0).into_response();
    assert_eq!(r.status, 400);
    match r.body {
        ResponseBody::ErrorBody { error_code, error_message } => {
            assert_eq!(error_code, "BadRequest");
            assert_eq!(error_message, "created_by does not reference an existing user");
        },
        _ => panic!("expected an error body"),
    }

    let r = map_store_error(StoreError::RowNotFound, 0xabc).into_response();
    assert_eq!(r.status, 404);
    match r.body {
        ResponseBody::ErrorBody { error_code, error_message } => {
            assert_eq!(error_code, "NotFound");
            assert_eq!(error_message, "Model with id 00000000-0000-0000-0000-000000000abc could not be found");
        },
        _ => panic!("expected an error body"),
    }

    let r = map_store_error(StoreError::Failure, 0).into_response();
    assert_eq!(r.status, 500);
    match r.body {
        ResponseBody::ErrorBody { error_code, error_message } => {
            assert_eq!(error_code, "InternalServerError");
            assert_eq!(error_message, "Internal Server Error");
        },
        _ => panic!("expected an error body"),
    }
}

#[test]
fn fallback_handler_renders_the_routing_message() {
    let r = handler_404();
    assert_eq!(r.status, 404);
    match r.body {
        ResponseBody::MessageBody { message } => {
            assert_eq!(message, "The requested resource was not found");
        },
        _ => panic!("expected a message body"),
    }
}

#[test]
fn merge_keeps_absent_fields_and_replaces_present_ones() {
    let current = User {
        id: 3,
        username: "ada".to_string(),
        name: "Ada".to_string(),
        mail: "ada@example.org".to_string(),
        created_at: 1,
        modified_at: 1,
    };
    let patch = UpdateUserPayload {
        username: None,
        name: Some("Countess".to_string()),
        mail: None,
    };
    let merged: CreateUserPayload = merge_user_update(&current, &patch);
    assert_eq!(merged.username, "ada");
    assert_eq!(merged.name, "Countess");
    assert_eq!(merged.mail, "ada@example.org");
}
