use vstd::prelude::*;

use crate::password::bcrypt_valid_hash;
use crate::text::str_eq;

verus! {

/// A stored user record. Timestamps are seconds since the Unix epoch.
#[derive(Clone, Debug)]
pub struct User {
    pub id: i64,
    pub username: String,
    pub password_hash: String,
    pub is_admin: bool,
    pub created_at: i64,
    pub updated_at: i64,
    pub totp_secret: Option<String>,
    pub totp_enabled: bool,
    pub backup_codes: Option<Vec<String>>,
}

impl User {
    /// Record invariant: the second factor is enabled only while a secret is
    /// present, backup codes exist only alongside a secret, the stored hash
    /// is a well-formed bcrypt hash, and the identifier is positive.
    pub open spec fn wf(&self) -> bool {
        &&& self.totp_enabled ==> self.totp_secret is Some
        &&& self.backup_codes is Some ==> self.totp_secret is Some
        &&& bcrypt_valid_hash(self.password_hash@)
        &&& self.id >= 1
    }
}

/// A request to create an account; a missing admin flag means a regular
/// account.
#[derive(Clone, Debug)]
pub struct CreateUserRequest {
    pub username: String,
    pub password: String,
    pub is_admin: Option<bool>,
}

/// A credential submission.
#[derive(Clone, Debug)]
pub struct LoginRequest {
    pub username: String,
    pub password: String,
}

/// The public view of a user record; it never carries the password hash.
#[derive(Clone, Debug)]
pub struct UserResponse {
    pub id: i64,
    pub username: String,
    pub is_admin: bool,
    pub created_at: i64,
    pub updated_at: i64,
    pub totp_enabled: bool,
}

/// What a successful login returns: the bearer token and the user's view.
#[derive(Clone, Debug)]
pub struct LoginResponse {
    pub access_token: String,
    pub user: UserResponse,
}

/// A partial update to a user record.
#[derive(Clone, Debug)]
pub struct UpdateUserRequest {
    pub username: Option<String>,
    pub password: Option<String>,
    pub is_admin: Option<bool>,
}

/// The public view of a record.
pub open spec fn user_view(u: User) -> UserResponse {
    UserResponse {
        id: u.id,
        username: u.username,
        is_admin: u.is_admin,
        created_at: u.created_at,
        updated_at: u.updated_at,
        totp_enabled: u.totp_enabled,
    }
}

impl From<User> for UserResponse {
    fn from(user: User) -> (r: UserResponse) {
        UserResponse {
            id: user.id,
            username: user.username,
            is_admin: user.is_admin,
            created_at: user.created_at,
            updated_at: user.updated_at,
            totp_enabled: user.totp_enabled,
        }
    }
}

impl vstd::std_specs::convert::FromSpecImpl<User> for UserResponse {
    open spec fn obeys_from_spec() -> bool {
        true
    }

    open spec fn from_spec(user: User) -> UserResponse {
        user_view(user)
    }
}

/// The user-record store: records in creation order with unique usernames
/// and increasing identifiers.
pub struct UserStore {
    pub users: Vec<User>,
    pub next_id: i64,
}

impl UserStore {
    /// Store invariant: every record is well formed, usernames are unique,
    /// identifiers increase with position and stay below the next free one.
    pub open spec fn wf(&self) -> bool {
        &&& forall|i: int| 0 <= i < self.users@.len() ==> (#[trigger] self.users@[i]).wf()
        &&& forall|i: int, j: int|
            0 <= i < j < self.users@.len() ==> (#[trigger] self.users@[i]).username@ != (
            #[trigger] self.users@[j]).username@
        &&& forall|i: int, j: int|
            0 <= i < j < self.users@.len() ==> (#[trigger] self.users@[i]).id < (
            #[trigger] self.users@[j]).id
        &&& forall|i: int| 0 <= i < self.users@.len() ==> (#[trigger] self.users@[i]).id
            < self.next_id
        &&& self.next_id >= 1
    }

    /// Whether some record carries this username.
    pub open spec fn has_username(&self, username: Seq<char>) -> bool {
        exists|i: int|
            0 <= i < self.users@.len() && (#[trigger] self.users@[i]).username@ == username
    }

    /// Whether some record carries this identifier.
    pub open spec fn has_id(&self, id: i64) -> bool {
        exists|i: int| 0 <= i < self.users@.len() && (#[trigger] self.users@[i]).id == id
    }

    /// The position of the record with this identifier.
    pub open spec fn index_of_id(&self, id: i64) -> int {
        choose|i: int| 0 <= i < self.users@.len() && (#[trigger] self.users@[i]).id == id
    }

    /// The position of the record with this username.
    pub open spec fn index_of_username(&self, username: Seq<char>) -> int {
        choose|i: int|
            0 <= i < self.users@.len() && (#[trigger] self.users@[i]).username@ == username
    }

    pub fn new() -> (r: UserStore)
        ensures
            r.wf(),
            r.users@.len() == 0,
            r.next_id == 1,
    {
        UserStore { users: Vec::new(), next_id: 1 }
    }

    /// Finds the record holding a username.
    pub fn lookup_username(&self, username: &str) -> (r: Option<usize>)
        requires
            self.wf(),
        ensures
            r matches Some(i) ==> i < self.users@.len() && self.users@[i as int].username@
                == username@ && self.index_of_username(username@) == i,
            r is Some <==> self.has_username(username@),
    {
        let n = self.users.len();
        let mut i: usize = 0;
        while i < n
            invariant
                self.wf(),
                0 <= i <= n,
                n == self.users@.len(),
                forall|j: int| 0 <= j < i ==> (#[trigger] self.users@[j]).username@ != username@,
            decreases n - i,
        {
            if str_eq(self.users[i].username.as_str(), username) {
                proof {
                    assert(exists|j: int|
                        0 <= j < self.users@.len() && (#[trigger] self.users@[j]).username@
                            == username@);
                    let k = self.index_of_username(username@);
                    assert(0 <= k < self.users@.len() && self.users@[k].username@ == username@);
                    if k < i as int {
                        assert(self.users@[k].username@ != self.users@[i as int].username@);
                    } else if k > i as int {
                        assert(self.users@[i as int].username@ != self.users@[k].username@);
                    }
                }
                return Some(i);
            }
            i = i + 1;
        }
        None
    }

    /// Finds the record holding an identifier.
    pub fn lookup_id(&self, id: i64) -> (r: Option<usize>)
        requires
            self.wf(),
        ensures
            r matches Some(i) ==> i < self.users@.len() && self.users@[i as int].id == id
                && self.index_of_id(id) == i,
            r is Some <==> self.has_id(id),
    {
        let n = self.users.len();
        let mut i: usize = 0;
        while i < n
            invariant
                self.wf(),
                0 <= i <= n,
                n == self.users@.len(),
                forall|j: int| 0 <= j < i ==> (#[trigger] self.users@[j]).id != id,
            decreases n - i,
        {
            if self.users[i].id == id {
                proof {
                    assert(exists|j: int|
                        0 <= j < self.users@.len() && (#[trigger] self.users@[j]).id == id);
                    let k = self.index_of_id(id);
                    assert(0 <= k < self.users@.len() && self.users@[k].id == id);
                    if k < i as int {
                        assert(self.users@[k].id < self.users@[i as int].id);
                    } else if k > i as int {
                        assert(self.users@[i as int].id < self.users@[k].id);
                    }
                }
                return Some(i);
            }
            i = i + 1;
        }
        None
    }

    /// Adds a record for a new username, with the second factor disabled,
    /// and returns its position. The username must be free and the hash
    /// well formed; fails exactly when the identifier space is exhausted.
    pub fn add_user(
        &mut self,
        username: String,
        password_hash: String,
        is_admin: bool,
        now: i64,
    ) -> (r: Result<usize, crate::errors::AuthError>)
        requires
            old(self).wf(),
            !old(self).has_username(username@),
            bcrypt_valid_hash(password_hash@),
        ensures
            final(self).wf(),
            r is Ok <==> old(self).next_id < i64::MAX,
            r matches Err(e) ==> e == crate::errors::AuthError::Internal && *final(self) == *old(
                self,
            ),
            r matches Ok(i) ==> {
                &&& i == old(self).users@.len()
                &&& final(self).next_id == old(self).next_id + 1
                &&& final(self).users@ == old(self).users@.push(final(self).users@[i as int])
                &&& final(self).users@[i as int] == (User {
                    id: old(self).next_id,
                    username: username,
                    password_hash: password_hash,
                    is_admin: is_admin,
                    created_at: now,
                    updated_at: now,
                    totp_secret: None,
                    totp_enabled: false,
                    backup_codes: None,
                })
            },
    {
        if self.next_id == i64::MAX {
            return Err(crate::errors::AuthError::Internal);
        }
        let id = self.next_id;
        let user = User {
            id,
            username,
            password_hash,
            is_admin,
            created_at: now,
            updated_at: now,
            totp_secret: None,
            totp_enabled: false,
            backup_codes: None,
        };
        let i = self.users.len();
        self.users.push(user);
        self.next_id = id + 1;
        Ok(i)
    }

    /// Stores fresh second-factor material on one record, leaving the
    /// second factor disabled.
    pub fn set_totp_material(&mut self, i: usize, secret: String, codes: Vec<String>)
        requires
            old(self).wf(),
            i < old(self).users@.len(),
        ensures
            final(self).wf(),
            final(self).next_id == old(self).next_id,
            final(self).users@.len() == old(self).users@.len(),
            forall|j: int|
                0 <= j < old(self).users@.len() && j != i ==> final(self).users@[j] == old(
                    self,
                ).users@[j],
            final(self).users@[i as int] == (User {
                totp_secret: Some(secret),
                totp_enabled: false,
                backup_codes: Some(codes),
                ..old(self).users@[i as int]
            }),
    {
        let u = &mut self.users[i];
        u.totp_secret = Some(secret);
        u.totp_enabled = false;
        u.backup_codes = Some(codes);
    }

    /// Turns the second factor on for one record; its secret must be
    /// present.
    pub fn enable_totp(&mut self, i: usize)
        requires
            old(self).wf(),
            i < old(self).users@.len(),
            old(self).users@[i as int].totp_secret is Some,
        ensures
            final(self).wf(),
            final(self).next_id == old(self).next_id,
            final(self).users@.len() == old(self).users@.len(),
            forall|j: int|
                0 <= j < old(self).users@.len() && j != i ==> final(self).users@[j] == old(
                    self,
                ).users@[j],
            final(self).users@[i as int] == (User {
                totp_enabled: true,
                ..old(self).users@[i as int]
            }),
    {
        let u = &mut self.users[i];
        u.totp_enabled = true;
    }

    /// Clears all second-factor material from one record.
    pub fn clear_totp(&mut self, i: usize)
        requires
            old(self).wf(),
            i < old(self).users@.len(),
        ensures
            final(self).wf(),
            final(self).next_id == old(self).next_id,
            final(self).users@.len() == old(self).users@.len(),
            forall|j: int|
                0 <= j < old(self).users@.len() && j != i ==> final(self).users@[j] == old(
                    self,
                ).users@[j],
            final(self).users@[i as int] == (User {
                totp_secret: None,
                totp_enabled: false,
                backup_codes: None,
                ..old(self).users@[i as int]
            }),
    {
        let u = &mut self.users[i];
        u.totp_secret = None;
        u.totp_enabled = false;
        u.backup_codes = None;
    }
}

} // verus!
