//! Entity records for the two resources and their input shapes, together
//! with the structural validation that every payload passes before it may
//! reach the store, and the merge that realises a partial update.

use vstd::prelude::*;
use vstd::string::StrSliceExecFns;

verus! {

/// Longest username the store accepts, in characters.
pub const USERNAME_MAX_LEN: usize = 100;

/// Longest display name the store accepts, in characters.
pub const NAME_MAX_LEN: usize = 250;

/// Longest mail address the store accepts, in characters.
pub const MAIL_MAX_LEN: usize = 250;

/// A persisted user row. `id`, `created_at` and `modified_at` are assigned
/// by the store; ids are 128-bit UUID values, timestamps are an integer
/// clock reading supplied by the caller of each store operation.
pub struct User {
    pub id: u128,
    pub username: String,
    pub name: String,
    pub mail: String,
    pub created_at: i64,
    pub modified_at: i64,
}

/// Mathematical image of a `User`.
pub ghost struct UserView {
    pub id: u128,
    pub username: Seq<char>,
    pub name: Seq<char>,
    pub mail: Seq<char>,
    pub created_at: int,
    pub modified_at: int,
}

impl View for User {
    type V = UserView;

    open spec fn view(&self) -> UserView {
        UserView {
            id: self.id,
            username: self.username@,
            name: self.name@,
            mail: self.mail@,
            created_at: self.created_at as int,
            modified_at: self.modified_at as int,
        }
    }
}

impl Clone for User {
    fn clone(&self) -> (r: Self)
        ensures
            r@ == self@,
    {
        User {
            id: self.id,
            username: self.username.clone(),
            name: self.name.clone(),
            mail: self.mail.clone(),
            created_at: self.created_at,
            modified_at: self.modified_at,
        }
    }
}

/// A persisted workspace row. `created_by` references the id of an
/// existing user.
pub struct Workspace {
    pub id: u128,
    pub name: String,
    pub created_by: u128,
    pub created_at: i64,
    pub modified_at: i64,
}

/// Mathematical image of a `Workspace`.
pub ghost struct WorkspaceView {
    pub id: u128,
    pub name: Seq<char>,
    pub created_by: u128,
    pub created_at: int,
    pub modified_at: int,
}

impl View for Workspace {
    type V = WorkspaceView;

    open spec fn view(&self) -> WorkspaceView {
        WorkspaceView {
            id: self.id,
            name: self.name@,
            created_by: self.created_by,
            created_at: self.created_at as int,
            modified_at: self.modified_at as int,
        }
    }
}

impl Clone for Workspace {
    fn clone(&self) -> (r: Self)
        ensures
            r@ == self@,
    {
        Workspace {
            id: self.id,
            name: self.name.clone(),
            created_by: self.created_by,
            created_at: self.created_at,
            modified_at: self.modified_at,
        }
    }
}

/// Input shape for creating a user: every field required, no id and no
/// timestamps.
pub struct CreateUserPayload {
    pub username: String,
    pub name: String,
    pub mail: String,
}

/// Mathematical image of a `CreateUserPayload`.
pub ghost struct CreateUserPayloadView {
    pub username: Seq<char>,
    pub name: Seq<char>,
    pub mail: Seq<char>,
}

impl View for CreateUserPayload {
    type V = CreateUserPayloadView;

    open spec fn view(&self) -> CreateUserPayloadView {
        CreateUserPayloadView { username: self.username@, name: self.name@, mail: self.mail@ }
    }
}

/// Input shape for a partial user update: every field optional, an absent
/// field means "leave unchanged".
pub struct UpdateUserPayload {
    pub username: Option<String>,
    pub name: Option<String>,
    pub mail: Option<String>,
}

/// Mathematical image of an `UpdateUserPayload`.
pub ghost struct UpdateUserPayloadView {
    pub username: Option<Seq<char>>,
    pub name: Option<Seq<char>>,
    pub mail: Option<Seq<char>>,
}

impl View for UpdateUserPayload {
    type V = UpdateUserPayloadView;

    open spec fn view(&self) -> UpdateUserPayloadView {
        UpdateUserPayloadView {
            username: match self.username {
                Some(s) => Some(s@),
                None => None,
            },
            name: match self.name {
                Some(s) => Some(s@),
                None => None,
            },
            mail: match self.mail {
                Some(s) => Some(s@),
                None => None,
            },
        }
    }
}

/// Input shape for creating a workspace.
pub struct CreateWorkspacePayload {
    pub name: String,
    pub created_by: u128,
}

/// Mathematical image of a `CreateWorkspacePayload`.
pub ghost struct CreateWorkspacePayloadView {
    pub name: Seq<char>,
    pub created_by: u128,
}

impl View for CreateWorkspacePayload {
    type V = CreateWorkspacePayloadView;

    open spec fn view(&self) -> CreateWorkspacePayloadView {
        CreateWorkspacePayloadView { name: self.name@, created_by: self.created_by }
    }
}

/// A create-user payload is structurally valid when each field is within
/// the declared column length.
pub open spec fn valid_create_user(p: CreateUserPayloadView) -> bool {
    &&& p.username.len() <= USERNAME_MAX_LEN
    &&& p.name.len() <= NAME_MAX_LEN
    &&& p.mail.len() <= MAIL_MAX_LEN
}

/// An update payload is structurally valid when each field it does carry is
/// within the declared column length.
pub open spec fn valid_update_user(p: UpdateUserPayloadView) -> bool {
    &&& (p.username matches Some(u) ==> u.len() <= USERNAME_MAX_LEN)
    &&& (p.name matches Some(n) ==> n.len() <= NAME_MAX_LEN)
    &&& (p.mail matches Some(m) ==> m.len() <= MAIL_MAX_LEN)
}

/// A create-workspace payload is structurally valid when its name is within
/// the declared column length.
pub open spec fn valid_create_workspace(p: CreateWorkspacePayloadView) -> bool {
    p.name.len() <= NAME_MAX_LEN
}

/// Checks the declared column lengths on a create-user payload.
pub fn validate_create_user(p: &CreateUserPayload) -> (b: bool)
    ensures
        b == valid_create_user(p@),
{
    p.username.as_str().unicode_len() <= USERNAME_MAX_LEN
        && p.name.as_str().unicode_len() <= NAME_MAX_LEN
        && p.mail.as_str().unicode_len() <= MAIL_MAX_LEN
}

/// Checks the declared column lengths on the fields an update payload carries.
pub fn validate_update_user(p: &UpdateUserPayload) -> (b: bool)
    ensures
        b == valid_update_user(p@),
{
    let username_ok = match &p.username {
        Some(u) => u.as_str().unicode_len() <= USERNAME_MAX_LEN,
        None => true,
    };
    let name_ok = match &p.name {
        Some(n) => n.as_str().unicode_len() <= NAME_MAX_LEN,
        None => true,
    };
    let mail_ok = match &p.mail {
        Some(m) => m.as_str().unicode_len() <= MAIL_MAX_LEN,
        None => true,
    };
    username_ok && name_ok && mail_ok
}

/// Checks the declared column length on a create-workspace payload.
pub fn validate_create_workspace(p: &CreateWorkspacePayload) -> (b: bool)
    ensures
        b == valid_create_workspace(p@),
{
    p.name.as_str().unicode_len() <= NAME_MAX_LEN
}

/// The full payload that results from overlaying a partial update on the
/// current row: a field the patch carries replaces the current value, an
/// absent field keeps it.
pub open spec fn merged_update(cur: UserView, patch: UpdateUserPayloadView) -> CreateUserPayloadView {
    CreateUserPayloadView {
        username: match patch.username {
            Some(u) => u,
            None => cur.username,
        },
        name: match patch.name {
            Some(n) => n,
            None => cur.name,
        },
        mail: match patch.mail {
            Some(m) => m,
            None => cur.mail,
        },
    }
}

/// Overlays a partial update on the current row, independent of any store
/// call: fields the patch carries replace the current values, absent fields
/// keep them.
pub fn merge_user_update(current: &User, patch: &UpdateUserPayload) -> (merged: CreateUserPayload)
    ensures
        merged@ == merged_update(current@, patch@),
{
    let username = match &patch.username {
        Some(u) => u.clone(),
        None => current.username.clone(),
    };
    let name = match &patch.name {
        Some(n) => n.clone(),
        None => current.name.clone(),
    };
    let mail = match &patch.mail {
        Some(m) => m.clone(),
        None => current.mail.clone(),
    };
    CreateUserPayload { username, name, mail }
}

} // verus!
