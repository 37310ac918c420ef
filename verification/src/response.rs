//! The closed error taxonomy of the service and its rendering: every
//! failure a handler can meet maps to exactly one of three HTTP error
//! shapes, each a status code with a stable two-field body. Success bodies
//! carry the records themselves; a transport layer serializes them.

use vstd::prelude::*;
use vstd::string::StringExecFns;

use crate::models::User;
use crate::models::Workspace;
use crate::store::StoreError;
use crate::uuid_text::uuid_str;
use crate::uuid_text::uuid_string;

verus! {

/// The three error kinds a request can end in.
pub enum ApiError {
    BadRequest(String),
    NotFound(u128),
    InternalServerError,
}

/// The body of a response: a record or list of records on success, the
/// two-field error shape on failure, a one-field message for the routing
/// fallback, and nothing for a delete.
pub enum ResponseBody {
    UserBody(User),
    UserListBody(Vec<User>),
    WorkspaceBody(Workspace),
    WorkspaceListBody(Vec<Workspace>),
    ErrorBody { error_code: String, error_message: String },
    MessageBody { message: String },
    EmptyBody,
}

/// An HTTP response: status code and body, ready for a transport layer to
/// serialize.
pub struct HttpResponse {
    pub status: u16,
    pub body: ResponseBody,
}

/// The error message of a lookup that found no row with the given id.
pub open spec fn not_found_message(id: u128) -> Seq<char> {
    "Model with id "@ + uuid_str(id) + " could not be found"@
}

/// The error message of a create that hit the uniqueness constraint.
pub open spec fn duplicate_user_message() -> Seq<char> {
    "Username and/or e-mail is already taken"@
}

/// The error message of a workspace create whose `created_by` matches no
/// user.
pub open spec fn unknown_owner_message() -> Seq<char> {
    "created_by does not reference an existing user"@
}

/// The error message of a request whose body did not decode against the
/// expected input shape.
pub open spec fn invalid_body_message() -> Seq<char> {
    "Invalid request body"@
}

/// The error message of a payload whose fields exceed the declared column
/// lengths.
pub open spec fn invalid_lengths_message() -> Seq<char> {
    "Payload fields exceed declared lengths"@
}

/// The error message of a path id that is not a well-formed uuid.
pub open spec fn invalid_path_id_message() -> Seq<char> {
    "Invalid id in path"@
}

/// `r` is a 400 response with code `BadRequest`, whatever its message.
pub open spec fn is_bad_request_code(r: HttpResponse) -> bool {
    &&& r.status == 400
    &&& r.body matches ResponseBody::ErrorBody { error_code, error_message } && error_code@
        == "BadRequest"@
}

/// `r` is the 400 response with code `BadRequest` and this message.
pub open spec fn is_bad_request(r: HttpResponse, msg: Seq<char>) -> bool {
    &&& is_bad_request_code(r)
    &&& r.body matches ResponseBody::ErrorBody { error_code, error_message } && error_message@
        == msg
}

/// `r` is the 404 response with code `NotFound` for this id.
pub open spec fn is_not_found(r: HttpResponse, id: u128) -> bool {
    &&& r.status == 404
    &&& r.body matches ResponseBody::ErrorBody { error_code, error_message } && error_code@
        == "NotFound"@ && error_message@ == not_found_message(id)
}

/// `r` is the 500 response with code `InternalServerError`.
pub open spec fn is_internal_error(r: HttpResponse) -> bool {
    &&& r.status == 500
    &&& r.body matches ResponseBody::ErrorBody { error_code, error_message } && error_code@
        == "InternalServerError"@ && error_message@ == "Internal Server Error"@
}

/// What rendering an `ApiError` yields: the status and two-field body of
/// its kind.
pub open spec fn api_error_response(e: ApiError, r: HttpResponse) -> bool {
    match e {
        ApiError::BadRequest(msg) => is_bad_request(r, msg@),
        ApiError::NotFound(id) => is_not_found(r, id),
        ApiError::InternalServerError => is_internal_error(r),
    }
}

impl ApiError {
    /// Renders the error as HTTP status plus the stable two-field body.
    pub fn into_response(self) -> (r: HttpResponse)
        ensures
            api_error_response(self, r),
    {
        match self {
            ApiError::BadRequest(msg) => HttpResponse {
                status: 400,
                body: ResponseBody::ErrorBody {
                    error_code: String::from_str("BadRequest"),
                    error_message: msg,
                },
            },
            ApiError::NotFound(id) => {
                let message = String::from_str("Model with id ").concat(
                    uuid_string(id).as_str(),
                ).concat(" could not be found");
                HttpResponse {
                    status: 404,
                    body: ResponseBody::ErrorBody {
                        error_code: String::from_str("NotFound"),
                        error_message: message,
                    },
                }
            },
            ApiError::InternalServerError => HttpResponse {
                status: 500,
                body: ResponseBody::ErrorBody {
                    error_code: String::from_str("InternalServerError"),
                    error_message: String::from_str("Internal Server Error"),
                },
            },
        }
    }
}

/// What classifying a store outcome yields: constraint violations are
/// client errors, a missing row is `NotFound` for the id that was
/// addressed, everything else is a server fault.
pub open spec fn store_error_mapping(e: StoreError, id: u128, r: ApiError) -> bool {
    match e {
        StoreError::UniqueViolation => r matches ApiError::BadRequest(m) && m@
            == duplicate_user_message(),
        StoreError::ForeignKeyViolation => r matches ApiError::BadRequest(m) && m@
            == unknown_owner_message(),
        StoreError::RowNotFound => r matches ApiError::NotFound(i) && i == id,
        StoreError::Failure => r matches ApiError::InternalServerError,
    }
}

/// Classifies a failed store outcome into the error taxonomy; `id` is the
/// id the failed operation addressed, reported when no row carried it.
/// The mapping is total: every store outcome reaches exactly one kind.
pub fn map_store_error(e: StoreError, id: u128) -> (r: ApiError)
    ensures
        store_error_mapping(e, id, r),
{
    match e {
        StoreError::UniqueViolation => ApiError::BadRequest(
            String::from_str("Username and/or e-mail is already taken"),
        ),
        StoreError::ForeignKeyViolation => ApiError::BadRequest(
            String::from_str("created_by does not reference an existing user"),
        ),
        StoreError::RowNotFound => ApiError::NotFound(id),
        StoreError::Failure => ApiError::InternalServerError,
    }
}

/// The response of the routing fallback: 404 with the one-field message
/// body.
pub fn handler_404() -> (r: HttpResponse)
    ensures
        r.status == 404,
        r.body matches ResponseBody::MessageBody { message } && message@
            == "The requested resource was not found"@,
{
    HttpResponse {
        status: 404,
        body: ResponseBody::MessageBody {
            message: String::from_str("The requested resource was not found"),
        },
    }
}

} // verus!
