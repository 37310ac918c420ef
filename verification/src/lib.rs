//! Verified core of a small users/workspaces CRUD backend.
//!
//! The crate holds the request-handling and error-mapping contract of the
//! service: entity records and their input shapes, structural validation,
//! the partial-update merge, a model of the table store with its uniqueness
//! and referential-integrity invariants, the closed error taxonomy with its
//! total mapping to HTTP responses, and the per-route handlers. Transport,
//! JSON encoding and the relational store itself live outside the library.

pub mod laws;
pub mod models;
pub mod response;
pub mod store;
pub mod user_api;
pub mod uuid_text;
pub mod workspace_api;

pub use models::CreateUserPayload;
pub use models::CreateWorkspacePayload;
pub use models::UpdateUserPayload;
pub use models::User;
pub use models::Workspace;
