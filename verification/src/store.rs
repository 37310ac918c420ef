//! A model of the table store behind the service: two tables held in
//! memory, with the invariants the relational schema enforces — unique user
//! ids, usernames and mail addresses, unique workspace ids, and referential
//! integrity from `workspaces.created_by` to `users.id`.
//!
//! The store exposes the query-gateway operations of the service; every
//! outcome is one of the typed rows or a `StoreError`, so the error mapper
//! can classify it. Ids are assigned from a counter, timestamps from a
//! clock reading handed to each write.

use vstd::prelude::*;

use crate::models::CreateUserPayload;
use crate::models::CreateUserPayloadView;
use crate::models::CreateWorkspacePayload;
use crate::models::CreateWorkspacePayloadView;
use crate::models::UpdateUserPayload;
use crate::models::UpdateUserPayloadView;
use crate::models::User;
use crate::models::UserView;
use crate::models::Workspace;
use crate::models::WorkspaceView;
use crate::models::MAIL_MAX_LEN;
use crate::models::NAME_MAX_LEN;
use crate::models::USERNAME_MAX_LEN;
use crate::models::merge_user_update;
use crate::models::merged_update;
use crate::models::valid_create_user;
use crate::models::valid_create_workspace;
use crate::models::valid_update_user;

verus! {

/// Outcome taxonomy of a failed store operation, as the error mapper
/// receives it: the two constraint classes a write can violate, a lookup
/// that found no row, and every other store or connection fault.
#[derive(Clone, Copy, PartialEq, Eq, Structural, Debug)]
pub enum StoreError {
    UniqueViolation,
    ForeignKeyViolation,
    RowNotFound,
    Failure,
}

/// Mathematical image of the store: both tables and the id counter.
pub ghost struct StoreView {
    pub users: Seq<UserView>,
    pub workspaces: Seq<WorkspaceView>,
    pub next_id: int,
}

/// The views of a table of user rows.
pub open spec fn user_views(users: Seq<User>) -> Seq<UserView> {
    users.map_values(|u: User| u@)
}

/// The views of a table of workspace rows.
pub open spec fn workspace_views(ws: Seq<Workspace>) -> Seq<WorkspaceView> {
    ws.map_values(|w: Workspace| w@)
}

/// No two user rows share an id, a username or a mail address.
pub open spec fn users_unique(users: Seq<UserView>) -> bool {
    forall|i: int, j: int|
        #![trigger users[i], users[j]]
        0 <= i < users.len() && 0 <= j < users.len() && i != j ==> users[i].id != users[j].id
            && users[i].username != users[j].username && users[i].mail != users[j].mail
}

/// No two workspace rows share an id.
pub open spec fn workspaces_unique(ws: Seq<WorkspaceView>) -> bool {
    forall|i: int, j: int|
        #![trigger ws[i], ws[j]]
        0 <= i < ws.len() && 0 <= j < ws.len() && i != j ==> ws[i].id != ws[j].id
}

/// Some user row carries this id.
pub open spec fn user_id_exists(users: Seq<UserView>, id: u128) -> bool {
    exists|i: int| 0 <= i < users.len() && (#[trigger] users[i]).id == id
}

/// Some user row carries this username.
pub open spec fn username_taken(users: Seq<UserView>, username: Seq<char>) -> bool {
    exists|i: int| 0 <= i < users.len() && (#[trigger] users[i]).username == username
}

/// Some user row carries this mail address.
pub open spec fn mail_taken(users: Seq<UserView>, mail: Seq<char>) -> bool {
    exists|i: int| 0 <= i < users.len() && (#[trigger] users[i]).mail == mail
}

/// Some user row other than the one at `except` carries this username.
pub open spec fn username_taken_except(users: Seq<UserView>, username: Seq<char>, except: int) -> bool {
    exists|i: int|
        0 <= i < users.len() && i != except && (#[trigger] users[i]).username == username
}

/// Some user row other than the one at `except` carries this mail address.
pub open spec fn mail_taken_except(users: Seq<UserView>, mail: Seq<char>, except: int) -> bool {
    exists|i: int| 0 <= i < users.len() && i != except && (#[trigger] users[i]).mail == mail
}

/// Some workspace row carries this id.
pub open spec fn workspace_id_exists(ws: Seq<WorkspaceView>, id: u128) -> bool {
    exists|i: int| 0 <= i < ws.len() && (#[trigger] ws[i]).id == id
}

/// Some workspace row references this user id.
pub open spec fn user_referenced(ws: Seq<WorkspaceView>, id: u128) -> bool {
    exists|i: int| 0 <= i < ws.len() && (#[trigger] ws[i]).created_by == id
}

/// Every workspace row references an existing user row.
pub open spec fn fk_intact(users: Seq<UserView>, ws: Seq<WorkspaceView>) -> bool {
    forall|i: int| 0 <= i < ws.len() ==> user_id_exists(users, (#[trigger] ws[i]).created_by)
}

/// Every row id is below the counter, so the next assigned id is fresh.
pub open spec fn ids_below(s: StoreView) -> bool {
    &&& forall|i: int| 0 <= i < s.users.len() ==> (#[trigger] s.users[i]).id < s.next_id
    &&& forall|i: int| 0 <= i < s.workspaces.len() ==> (#[trigger] s.workspaces[i]).id < s.next_id
}

/// A stored user row respects the declared column lengths.
pub open spec fn user_row_valid(u: UserView) -> bool {
    &&& u.username.len() <= USERNAME_MAX_LEN
    &&& u.name.len() <= NAME_MAX_LEN
    &&& u.mail.len() <= MAIL_MAX_LEN
}

/// Every stored row respects the declared column lengths.
pub open spec fn rows_valid(s: StoreView) -> bool {
    &&& forall|i: int| 0 <= i < s.users.len() ==> user_row_valid(#[trigger] s.users[i])
    &&& forall|i: int| 0 <= i < s.workspaces.len() ==> (#[trigger] s.workspaces[i]).name.len()
        <= NAME_MAX_LEN
}

/// Well-formedness of the store: the schema's constraints, fresh ids ahead
/// of the counter, and column lengths respected.
pub open spec fn store_wf(s: StoreView) -> bool {
    &&& users_unique(s.users)
    &&& workspaces_unique(s.workspaces)
    &&& fk_intact(s.users, s.workspaces)
    &&& ids_below(s)
    &&& 0 <= s.next_id <= u64::MAX
    &&& rows_valid(s)
}

/// The index of the user row carrying this id; meaningful when
/// `user_id_exists` holds — with `users_unique` it is then the one such index.
pub open spec fn user_index_of(users: Seq<UserView>, id: u128) -> int {
    choose|i: int| 0 <= i < users.len() && (#[trigger] users[i]).id == id
}

/// The index of the workspace row carrying this id; meaningful when
/// `workspace_id_exists` holds.
pub open spec fn workspace_index_of(ws: Seq<WorkspaceView>, id: u128) -> int {
    choose|i: int| 0 <= i < ws.len() && (#[trigger] ws[i]).id == id
}

/// The in-memory table store.
pub struct Store {
    users: Vec<User>,
    workspaces: Vec<Workspace>,
    next_id: u64,
}

impl View for Store {
    type V = StoreView;

    closed spec fn view(&self) -> StoreView {
        StoreView {
            users: user_views(self.users@),
            workspaces: workspace_views(self.workspaces@),
            next_id: self.next_id as int,
        }
    }
}

impl Store {
    /// An empty store.
    pub fn new() -> (s: Store)
        ensures
            store_wf(s@),
            s@.users == Seq::<UserView>::empty(),
            s@.workspaces == Seq::<WorkspaceView>::empty(),
            s@.next_id == 0,
    {
        let s = Store { users: Vec::new(), workspaces: Vec::new(), next_id: 0 };
        proof {
            assert(s@.users =~= Seq::<UserView>::empty());
            assert(s@.workspaces =~= Seq::<WorkspaceView>::empty());
        }
        s
    }

    /// The index of the user row with this id, if one exists.
    fn find_user_index(&self, id: u128) -> (r: Option<usize>)
        ensures
            match r {
                Some(i) => 0 <= i < self@.users.len() && self@.users[i as int].id == id,
                None => !user_id_exists(self@.users, id),
            },
    {
        let mut i: usize = 0;
        while i < self.users.len()
            invariant
                i <= self.users.len(),
                self@.users.len() == self.users.len(),
                forall|k: int| 0 <= k < i ==> (#[trigger] self@.users[k]).id != id,
            decreases self.users.len() - i,
        {
            if self.users[i].id == id {
                return Some(i);
            }
            i += 1;
        }
        None
    }

    /// The index of the workspace row with this id, if one exists.
    fn find_workspace_index(&self, id: u128) -> (r: Option<usize>)
        ensures
            match r {
                Some(i) => 0 <= i < self@.workspaces.len() && self@.workspaces[i as int].id == id,
                None => !workspace_id_exists(self@.workspaces, id),
            },
    {
        let mut i: usize = 0;
        while i < self.workspaces.len()
            invariant
                i <= self.workspaces.len(),
                self@.workspaces.len() == self.workspaces.len(),
                forall|k: int| 0 <= k < i ==> (#[trigger] self@.workspaces[k]).id != id,
            decreases self.workspaces.len() - i,
        {
            if self.workspaces[i].id == id {
                return Some(i);
            }
            i += 1;
        }
        None
    }

    /// Whether some user row already carries this username or this mail
    /// address.
    fn username_or_mail_taken(&self, username: &String, mail: &String) -> (b: bool)
        ensures
            b == (username_taken(self@.users, username@) || mail_taken(self@.users, mail@)),
    {
        let mut i: usize = 0;
        while i < self.users.len()
            invariant
                i <= self.users.len(),
                self@.users.len() == self.users.len(),
                forall|k: int|
                    0 <= k < i ==> (#[trigger] self@.users[k]).username != username@
                        && self@.users[k].mail != mail@,
            decreases self.users.len() - i,
        {
            if self.users[i].username == *username || self.users[i].mail == *mail {
                proof {
                    assert(self@.users[i as int].username == username@ || self@.users[
                        i as int
                    ].mail == mail@);
                }
                return true;
            }
            i += 1;
        }
        false
    }

    /// Inserts a user assembled from a structurally valid payload, assigning
    /// a fresh id and both timestamps. A duplicate username or mail address
    /// is a `UniqueViolation`; an exhausted id counter is a store `Failure`.
    pub fn insert_user(&mut self, payload: &CreateUserPayload, now: i64) -> (r: Result<
        User,
        StoreError,
    >)
        requires
            store_wf(old(self)@),
            valid_create_user(payload@),
        ensures
            store_wf(final(self)@),
            insert_user_post(old(self)@, final(self)@, payload@, now as int, r),
    {
        if self.username_or_mail_taken(&payload.username, &payload.mail) {
            return Err(StoreError::UniqueViolation);
        }
        if self.next_id == u64::MAX {
            return Err(StoreError::Failure);
        }
        let id: u128 = self.next_id as u128;
        let user = User {
            id,
            username: payload.username.clone(),
            name: payload.name.clone(),
            mail: payload.mail.clone(),
            created_at: now,
            modified_at: now,
        };
        let result = user.clone();
        self.users.push(user);
        self.next_id = self.next_id + 1;
        proof {
            let pre = old(self)@;
            let post = self@;
            assert(post.users =~= pre.users.push(result@));
            assert forall|a: int, b: int|
                #![trigger post.users[a], post.users[b]]
                0 <= a < post.users.len() && 0 <= b < post.users.len() && a
                    != b implies post.users[a].id != post.users[b].id && post.users[a].username
                != post.users[b].username && post.users[a].mail != post.users[b].mail by {
                if a < pre.users.len() && b < pre.users.len() {
                } else if a < pre.users.len() {
                    assert(pre.users[a].id < pre.next_id);
                } else {
                    assert(pre.users[b].id < pre.next_id);
                }
            }
            assert forall|k: int| 0 <= k < post.workspaces.len() implies user_id_exists(
                post.users,
                (#[trigger] post.workspaces[k]).created_by,
            ) by {
                let w = choose|j: int|
                    0 <= j < pre.users.len() && (#[trigger] pre.users[j]).id
                        == post.workspaces[k].created_by;
                assert(post.users[w].id == post.workspaces[k].created_by);
            }
        }
        Ok(result)
    }

    /// Inserts a workspace assembled from a structurally valid payload,
    /// assigning a fresh id and both timestamps. A `created_by` that matches
    /// no user row is a `ForeignKeyViolation`; an exhausted id counter is a
    /// store `Failure`.
    pub fn insert_workspace(&mut self, payload: &CreateWorkspacePayload, now: i64) -> (r: Result<
        Workspace,
        StoreError,
    >)
        requires
            store_wf(old(self)@),
            valid_create_workspace(payload@),
        ensures
            store_wf(final(self)@),
            insert_workspace_post(old(self)@, final(self)@, payload@, now as int, r),
    {
        let owner = self.find_user_index(payload.created_by);
        if owner.is_none() {
            return Err(StoreError::ForeignKeyViolation);
        }
        proof {
            assert(user_id_exists(self@.users, payload.created_by));
        }
        if self.next_id == u64::MAX {
            return Err(StoreError::Failure);
        }
        let id: u128 = self.next_id as u128;
        let workspace = Workspace {
            id,
            name: payload.name.clone(),
            created_by: payload.created_by,
            created_at: now,
            modified_at: now,
        };
        let result = workspace.clone();
        self.workspaces.push(workspace);
        self.next_id = self.next_id + 1;
        proof {
            let pre = old(self)@;
            let post = self@;
            assert(post.workspaces =~= pre.workspaces.push(result@));
            assert forall|a: int, b: int|
                #![trigger post.workspaces[a], post.workspaces[b]]
                0 <= a < post.workspaces.len() && 0 <= b < post.workspaces.len() && a
                    != b implies post.workspaces[a].id != post.workspaces[b].id by {
                if a < pre.workspaces.len() && b < pre.workspaces.len() {
                } else if a < pre.workspaces.len() {
                    assert(pre.workspaces[a].id < pre.next_id);
                } else {
                    assert(pre.workspaces[b].id < pre.next_id);
                }
            }
            assert forall|k: int| 0 <= k < post.workspaces.len() implies user_id_exists(
                post.users,
                (#[trigger] post.workspaces[k]).created_by,
            ) by {
                if k < pre.workspaces.len() {
                    assert(user_id_exists(pre.users, pre.workspaces[k].created_by));
                } else {
                    assert(user_id_exists(pre.users, payload.created_by));
                }
            }
        }
        Ok(result)
    }

    /// Looks a user up by id.
    pub fn get_user(&self, id: u128) -> (r: Result<User, StoreError>)
        requires
            store_wf(self@),
        ensures
            get_user_post(self@, id, r),
    {
        match self.find_user_index(id) {
            Some(i) => {
                let u = self.users[i].clone();
                proof {
                    assert(user_id_exists(self@.users, id));
                    let j = user_index_of(self@.users, id);
                    assert(0 <= j < self@.users.len() && self@.users[j].id == id);
                    assert(j == i as int);
                }
                Ok(u)
            },
            None => Err(StoreError::RowNotFound),
        }
    }

    /// Looks a workspace up by id.
    pub fn get_workspace(&self, id: u128) -> (r: Result<Workspace, StoreError>)
        requires
            store_wf(self@),
        ensures
            get_workspace_post(self@, id, r),
    {
        match self.find_workspace_index(id) {
            Some(i) => {
                let w = self.workspaces[i].clone();
                proof {
                    assert(workspace_id_exists(self@.workspaces, id));
                    let j = workspace_index_of(self@.workspaces, id);
                    assert(0 <= j < self@.workspaces.len() && self@.workspaces[j].id == id);
                    assert(j == i as int);
                }
                Ok(w)
            },
            None => Err(StoreError::RowNotFound),
        }
    }

    /// Whether some user row other than the one at `except` carries this
    /// username or this mail address.
    fn conflicts_with_other(&self, except: usize, username: &String, mail: &String) -> (b: bool)
        ensures
            b == (username_taken_except(self@.users, username@, except as int)
                || mail_taken_except(self@.users, mail@, except as int)),
    {
        let mut i: usize = 0;
        while i < self.users.len()
            invariant
                i <= self.users.len(),
                self@.users.len() == self.users.len(),
                forall|k: int|
                    0 <= k < i && k != except ==> (#[trigger] self@.users[k]).username != username@
                        && self@.users[k].mail != mail@,
            decreases self.users.len() - i,
        {
            if i != except && (self.users[i].username == *username || self.users[i].mail == *mail) {
                proof {
                    assert(self@.users[i as int].username == username@ || self@.users[
                        i as int
                    ].mail == mail@);
                }
                return true;
            }
            i += 1;
        }
        false
    }

    /// Whether some workspace row references this user id.
    fn any_workspace_references(&self, id: u128) -> (b: bool)
        ensures
            b == user_referenced(self@.workspaces, id),
    {
        let mut i: usize = 0;
        while i < self.workspaces.len()
            invariant
                i <= self.workspaces.len(),
                self@.workspaces.len() == self.workspaces.len(),
                forall|k: int| 0 <= k < i ==> (#[trigger] self@.workspaces[k]).created_by != id,
            decreases self.workspaces.len() - i,
        {
            if self.workspaces[i].created_by == id {
                proof {
                    assert(self@.workspaces[i as int].created_by == id);
                }
                return true;
            }
            i += 1;
        }
        false
    }

    /// Overlays the patch on the current row — absent fields keep their
    /// value — writes the result back under the same id and `created_at`,
    /// stamps `modified_at` with `now`, and returns the new row. An id that
    /// matches no row is `RowNotFound`; a merged username or mail address
    /// that another row already carries would break the uniqueness
    /// constraint and is reported as a store `Failure`. Either all changed
    /// columns commit or none do.
    pub fn update_user(&mut self, id: u128, patch: &UpdateUserPayload, now: i64) -> (r: Result<
        User,
        StoreError,
    >)
        requires
            store_wf(old(self)@),
            valid_update_user(patch@),
        ensures
            store_wf(final(self)@),
            update_user_post(old(self)@, final(self)@, id, patch@, now as int, r),
    {
        let found = self.find_user_index(id);
        let i: usize = match found {
            None => {
                return Err(StoreError::RowNotFound);
            },
            Some(i) => i,
        };
        proof {
            assert(user_id_exists(self@.users, id));
            let j = user_index_of(self@.users, id);
            assert(0 <= j < self@.users.len() && self@.users[j].id == id);
            assert(j == i as int);
        }
        let merged = merge_user_update(&self.users[i], patch);
        if self.conflicts_with_other(i, &merged.username, &merged.mail) {
            return Err(StoreError::Failure);
        }
        let updated = User {
            id,
            username: merged.username,
            name: merged.name,
            mail: merged.mail,
            created_at: self.users[i].created_at,
            modified_at: now,
        };
        let result = updated.clone();
        self.users.remove(i);
        self.users.insert(i, updated);
        proof {
            let pre = old(self)@;
            let post = self@;
            let k = i as int;
            assert(post.users =~= pre.users.update(k, result@));
            assert forall|a: int, b: int|
                #![trigger post.users[a], post.users[b]]
                0 <= a < post.users.len() && 0 <= b < post.users.len() && a
                    != b implies post.users[a].id != post.users[b].id && post.users[a].username
                != post.users[b].username && post.users[a].mail != post.users[b].mail by {
                if a != k && b != k {
                } else if a == k {
                    assert(pre.users[b].id != id);
                } else {
                    assert(pre.users[a].id != id);
                }
            }
            assert forall|w: int| 0 <= w < post.workspaces.len() implies user_id_exists(
                post.users,
                (#[trigger] post.workspaces[w]).created_by,
            ) by {
                let c = choose|j: int|
                    0 <= j < pre.users.len() && (#[trigger] pre.users[j]).id
                        == pre.workspaces[w].created_by;
                assert(post.users[c].id == pre.workspaces[w].created_by);
            }
            assert(user_row_valid(result@));
        }
        Ok(result)
    }

    /// Deletes the user row with this id. An id that matches no row is
    /// `RowNotFound`; a row that a workspace still references would break
    /// the foreign-key constraint and is reported as a store `Failure`.
    pub fn delete_user(&mut self, id: u128) -> (r: Result<(), StoreError>)
        requires
            store_wf(old(self)@),
        ensures
            store_wf(final(self)@),
            delete_user_post(old(self)@, final(self)@, id, r),
    {
        let found = self.find_user_index(id);
        let i: usize = match found {
            None => {
                return Err(StoreError::RowNotFound);
            },
            Some(i) => i,
        };
        if self.any_workspace_references(id) {
            return Err(StoreError::Failure);
        }
        proof {
            assert(user_id_exists(self@.users, id));
            let j = user_index_of(self@.users, id);
            assert(0 <= j < self@.users.len() && self@.users[j].id == id);
            assert(j == i as int);
        }
        self.users.remove(i);
        proof {
            let pre = old(self)@;
            let post = self@;
            let k = i as int;
            assert(post.users =~= pre.users.remove(k));
            assert forall|m: int| 0 <= m < post.users.len() implies (#[trigger] post.users[m]).id
                != id by {
                if m < k {
                    assert(post.users[m] == pre.users[m]);
                } else {
                    assert(post.users[m] == pre.users[m + 1]);
                }
            }
            assert forall|w: int| 0 <= w < post.workspaces.len() implies user_id_exists(
                post.users,
                (#[trigger] post.workspaces[w]).created_by,
            ) by {
                let c = choose|j: int|
                    0 <= j < pre.users.len() && (#[trigger] pre.users[j]).id
                        == pre.workspaces[w].created_by;
                if c == k {
                    assert(pre.workspaces[w].created_by == id);
                    assert(user_referenced(pre.workspaces, id));
                } else if c < k {
                    assert(post.users[c].id == pre.workspaces[w].created_by);
                } else {
                    assert(post.users[c - 1].id == pre.workspaces[w].created_by);
                }
            }
        }
        Ok(())
    }

    /// Returns every user row.
    pub fn list_users(&self) -> (r: Vec<User>)
        ensures
            user_views(r@) == self@.users,
    {
        let mut out: Vec<User> = Vec::new();
        let mut i: usize = 0;
        while i < self.users.len()
            invariant
                i <= self.users.len(),
                self@.users.len() == self.users.len(),
                out@.len() == i,
                forall|k: int| 0 <= k < i ==> (#[trigger] out@[k])@ == self@.users[k],
            decreases self.users.len() - i,
        {
            out.push(self.users[i].clone());
            i += 1;
        }
        proof {
            assert(user_views(out@) =~= self@.users);
        }
        out
    }

    /// Returns every workspace row.
    pub fn list_workspaces(&self) -> (r: Vec<Workspace>)
        ensures
            workspace_views(r@) == self@.workspaces,
    {
        let mut out: Vec<Workspace> = Vec::new();
        let mut i: usize = 0;
        while i < self.workspaces.len()
            invariant
                i <= self.workspaces.len(),
                self@.workspaces.len() == self.workspaces.len(),
                out@.len() == i,
                forall|k: int| 0 <= k < i ==> (#[trigger] out@[k])@ == self@.workspaces[k],
            decreases self.workspaces.len() - i,
        {
            out.push(self.workspaces[i].clone());
            i += 1;
        }
        proof {
            assert(workspace_views(out@) =~= self@.workspaces);
        }
        out
    }
}

/// What `Store::insert_user` does: on a duplicate username or mail address
/// it returns `UniqueViolation` and leaves the store unchanged; on an
/// exhausted id counter it returns `Failure` and leaves the store unchanged;
/// otherwise it returns the new row — the payload's fields, a fresh id, both
/// timestamps set to `now` — and appends exactly that row.
pub open spec fn insert_user_post(
    pre: StoreView,
    post: StoreView,
    p: CreateUserPayloadView,
    now: int,
    r: Result<User, StoreError>,
) -> bool {
    if username_taken(pre.users, p.username) || mail_taken(pre.users, p.mail) {
        &&& r matches Err(e) && e == StoreError::UniqueViolation
        &&& post == pre
    } else if pre.next_id == u64::MAX as int {
        &&& r matches Err(e) && e == StoreError::Failure
        &&& post == pre
    } else {
        &&& r matches Ok(u) && ({
            &&& u@.username == p.username
            &&& u@.name == p.name
            &&& u@.mail == p.mail
            &&& u@.created_at == now
            &&& u@.modified_at == now
            &&& !user_id_exists(pre.users, u@.id)
            &&& post.users == pre.users.push(u@)
        })
        &&& post.workspaces == pre.workspaces
        &&& post.next_id == pre.next_id + 1
    }
}

/// What `Store::insert_workspace` does: a `created_by` matching no user row
/// is a `ForeignKeyViolation` and leaves the store unchanged; an exhausted
/// id counter is a `Failure` and leaves the store unchanged; otherwise it
/// returns the new row — the payload's fields, a fresh id, both timestamps
/// set to `now` — and appends exactly that row.
pub open spec fn insert_workspace_post(
    pre: StoreView,
    post: StoreView,
    p: CreateWorkspacePayloadView,
    now: int,
    r: Result<Workspace, StoreError>,
) -> bool {
    if !user_id_exists(pre.users, p.created_by) {
        &&& r matches Err(e) && e == StoreError::ForeignKeyViolation
        &&& post == pre
    } else if pre.next_id == u64::MAX as int {
        &&& r matches Err(e) && e == StoreError::Failure
        &&& post == pre
    } else {
        &&& r matches Ok(w) && ({
            &&& w@.name == p.name
            &&& w@.created_by == p.created_by
            &&& w@.created_at == now
            &&& w@.modified_at == now
            &&& !workspace_id_exists(pre.workspaces, w@.id)
            &&& post.workspaces == pre.workspaces.push(w@)
        })
        &&& post.users == pre.users
        &&& post.next_id == pre.next_id + 1
    }
}

/// What `Store::update_user` does: an id matching no row is `RowNotFound`
/// and leaves the store unchanged; a merged username or mail address that
/// another row already carries is a store `Failure` and leaves the store
/// unchanged; otherwise exactly the addressed row is replaced — the patch's
/// fields overlaid on the current values, the id and `created_at` kept,
/// `modified_at` stamped with `now` — and the new row is returned.
pub open spec fn update_user_post(
    pre: StoreView,
    post: StoreView,
    id: u128,
    p: UpdateUserPayloadView,
    now: int,
    r: Result<User, StoreError>,
) -> bool {
    if !user_id_exists(pre.users, id) {
        &&& r matches Err(e) && e == StoreError::RowNotFound
        &&& post == pre
    } else {
        let i = user_index_of(pre.users, id);
        let m = merged_update(pre.users[i], p);
        if username_taken_except(pre.users, m.username, i) || mail_taken_except(
            pre.users,
            m.mail,
            i,
        ) {
            &&& r matches Err(e) && e == StoreError::Failure
            &&& post == pre
        } else {
            &&& r matches Ok(u) && ({
                &&& u@ == (UserView {
                    id,
                    username: m.username,
                    name: m.name,
                    mail: m.mail,
                    created_at: pre.users[i].created_at,
                    modified_at: now,
                })
                &&& post.users == pre.users.update(i, u@)
            })
            &&& post.workspaces == pre.workspaces
            &&& post.next_id == pre.next_id
        }
    }
}

/// What `Store::delete_user` does: an id matching no row is `RowNotFound`
/// and leaves the store unchanged; a row some workspace still references is
/// a store `Failure` and leaves the store unchanged; otherwise exactly the
/// addressed row is removed, and no row with that id remains.
pub open spec fn delete_user_post(
    pre: StoreView,
    post: StoreView,
    id: u128,
    r: Result<(), StoreError>,
) -> bool {
    if !user_id_exists(pre.users, id) {
        &&& r matches Err(e) && e == StoreError::RowNotFound
        &&& post == pre
    } else if user_referenced(pre.workspaces, id) {
        &&& r matches Err(e) && e == StoreError::Failure
        &&& post == pre
    } else {
        &&& r matches Ok(_)
        &&& post.users == pre.users.remove(user_index_of(pre.users, id))
        &&& !user_id_exists(post.users, id)
        &&& post.workspaces == pre.workspaces
        &&& post.next_id == pre.next_id
    }
}

/// What `Store::get_user` returns: the row carrying the id when one exists,
/// `RowNotFound` otherwise.
pub open spec fn get_user_post(s: StoreView, id: u128, r: Result<User, StoreError>) -> bool {
    if user_id_exists(s.users, id) {
        r matches Ok(u) && u@ == s.users[user_index_of(s.users, id)]
    } else {
        r matches Err(e) && e == StoreError::RowNotFound
    }
}

/// What `Store::get_workspace` returns: the row carrying the id when one
/// exists, `RowNotFound` otherwise.
pub open spec fn get_workspace_post(s: StoreView, id: u128, r: Result<Workspace, StoreError>) -> bool {
    if workspace_id_exists(s.workspaces, id) {
        r matches Ok(w) && w@ == s.workspaces[workspace_index_of(s.workspaces, id)]
    } else {
        r matches Err(e) && e == StoreError::RowNotFound
    }
}

} // verus!
