use vstd::prelude::*;

use crate::errors::AuthError;
use crate::notification::{
    CreateNotificationRequest, Notification, NotificationListResponse, NotificationQuery,
    NotificationResponse, NotificationStore, has_published_id, published_desc,
};
use crate::numeric::{dec_value, parse_user_id, parses_as_id};
use crate::password::{bcrypt_matches, hash_password, verify_password};
use crate::token::{Claims, JwtUtils, token_of};
use crate::totp::{TotpSetup, TotpVerification, is_backup_code, is_lower_hex, otpauth_uri};
use crate::user::{
    CreateUserRequest, LoginRequest, LoginResponse, User, UserResponse, UserStore,
};

verus! {

/// Whether the view `r` shows exactly the record `u` (and nothing secret).
pub open spec fn user_view_matches(u: User, r: UserResponse) -> bool {
    &&& r.id == u.id
    &&& r.username@ == u.username@
    &&& r.is_admin == u.is_admin
    &&& r.created_at == u.created_at
    &&& r.updated_at == u.updated_at
    &&& r.totp_enabled == u.totp_enabled
}

/// Whether some stored record carries this username with a password hash
/// that the submitted password verifies against.
pub open spec fn credentials_match(
    store: UserStore,
    username: Seq<char>,
    password: Seq<char>,
) -> bool {
    exists|i: int|
        0 <= i < store.users@.len() && (#[trigger] store.users@[i]).username@ == username
            && bcrypt_matches(password, store.users@[i].password_hash@)
}

/// The service: the user and announcement stores and the token component,
/// composed behind the operations the boundary exposes.
pub struct Service {
    pub users: UserStore,
    pub notifications: NotificationStore,
    pub jwt: JwtUtils,
}

impl Service {
    pub open spec fn wf(&self) -> bool {
        &&& self.users.wf()
        &&& self.notifications.wf()
        &&& self.jwt.wf()
    }

    /// A fresh service with empty stores, a signing secret, and a token
    /// time-to-live in seconds.
    pub fn new(secret: String, ttl_seconds: i64) -> (r: Service)
        requires
            ttl_seconds >= 0,
        ensures
            r.wf(),
            r.users.users@.len() == 0,
            r.notifications.items@.len() == 0,
            r.jwt.secret == secret,
            r.jwt.ttl_seconds == ttl_seconds,
    {
        Service {
            users: UserStore::new(),
            notifications: NotificationStore::new(),
            jwt: JwtUtils::new(secret, ttl_seconds),
        }
    }

    /// Checks a credential submission against the stored records at the
    /// given clock reading and, when it matches, issues a token for the
    /// matched user. Bad credentials are rejected uniformly; a matching
    /// pair is owed a login whenever the token expiry fits the timestamp
    /// type.
    ///
    /// Deliberate choice: login succeeds on the password alone even when the
    /// account's second factor is enabled. The one-time code guards only the
    /// enrollment operations themselves; a deployment wanting a second login
    /// proof should challenge for a code after this check.
    pub fn login_at(&self, payload: &LoginRequest, now: i64) -> (r: Result<
        LoginResponse,
        AuthError,
    >)
        requires
            self.wf(),
        ensures
            r == Err::<LoginResponse, AuthError>(AuthError::Unauthorized) <==> !credentials_match(
                self.users,
                payload.username@,
                payload.password@,
            ),
            credentials_match(self.users, payload.username@, payload.password@) && now
                + self.jwt.ttl_seconds <= i64::MAX ==> r is Ok,
            r matches Err(e) ==> e == AuthError::Unauthorized || e == AuthError::Internal,
            r matches Ok(resp) ==> ({
                let i = self.users.index_of_username(payload.username@);
                &&& credentials_match(self.users, payload.username@, payload.password@)
                &&& 0 <= i < self.users.users@.len()
                &&& self.users.users@[i].username@ == payload.username@
                &&& user_view_matches(self.users.users@[i], resp.user)
                &&& now + self.jwt.ttl_seconds <= i64::MAX
                &&& resp.access_token@ == token_of(
                    crate::numeric::dec_digits(self.users.users@[i].id as nat),
                    self.users.users@[i].username@,
                    (now + self.jwt.ttl_seconds) as i64,
                    now,
                    self.jwt.secret@,
                )
            }),
    {
        let i = match self.users.lookup_username(payload.username.as_str()) {
            Some(i) => i,
            None => {
                proof {
                    assert(!credentials_match(self.users, payload.username@, payload.password@));
                }
                return Err(AuthError::Unauthorized);
            },
        };
        let user = &self.users.users[i];
        let ok = match verify_password(payload.password.as_str(), user.password_hash.as_str()) {
            Ok(b) => b,
            Err(_) => {
                proof {
                    assert(false);
                }
                return Err(AuthError::Internal);
            },
        };
        if !ok {
            proof {
                if credentials_match(self.users, payload.username@, payload.password@) {
                    let j = choose|j: int|
                        0 <= j < self.users.users@.len() && (
                        #[trigger] self.users.users@[j]).username@ == payload.username@
                            && bcrypt_matches(
                            payload.password@,
                            self.users.users@[j].password_hash@,
                        );
                    if j < i as int {
                        assert(self.users.users@[j].username@
                            != self.users.users@[i as int].username@);
                    } else if j > i as int {
                        assert(self.users.users@[i as int].username@
                            != self.users.users@[j].username@);
                    }
                }
            }
            return Err(AuthError::Unauthorized);
        }
        let token = match self.jwt.generate_token_at(user.id, user.username.as_str(), now) {
            Ok(t) => t,
            Err(_) => {
                return Err(AuthError::Internal);
            },
        };
        let resp = LoginResponse {
            access_token: token,
            user: UserResponse {
                id: user.id,
                username: user.username.clone(),
                is_admin: user.is_admin,
                created_at: user.created_at,
                updated_at: user.updated_at,
                totp_enabled: user.totp_enabled,
            },
        };
        Ok(resp)
    }

    /// Checks a credential submission against the stored records with the
    /// current clock as the token's issue time.
    pub fn login(&self, payload: &LoginRequest) -> (r: Result<LoginResponse, AuthError>)
        requires
            self.wf(),
        ensures
            r == Err::<LoginResponse, AuthError>(AuthError::Unauthorized) <==> !credentials_match(
                self.users,
                payload.username@,
                payload.password@,
            ),
            r matches Err(e) ==> e == AuthError::Unauthorized || e == AuthError::Internal,
            r matches Ok(resp) ==> ({
                let i = self.users.index_of_username(payload.username@);
                &&& credentials_match(self.users, payload.username@, payload.password@)
                &&& 0 <= i < self.users.users@.len()
                &&& user_view_matches(self.users.users@[i], resp.user)
            }),
    {
        let now = crate::clock::current_timestamp();
        self.login_at(payload, now)
    }

    /// Creates an account: the username must be free, the password is
    /// hashed, the admin flag defaults to off and the second factor starts
    /// disabled. A taken username is a conflict and leaves every record
    /// unchanged.
    pub fn register_at(&mut self, payload: &CreateUserRequest, now: i64) -> (r: Result<
        UserResponse,
        AuthError,
    >)
        requires
            old(self).wf(),
        ensures
            final(self).wf(),
            final(self).jwt == old(self).jwt,
            final(self).notifications == old(self).notifications,
            r == Err::<UserResponse, AuthError>(AuthError::Conflict) <==> old(self).users.has_username(payload.username@),
            r matches Err(e) ==> (e == AuthError::Conflict || e == AuthError::Internal) && *final(self) == *old(self),
            r matches Ok(v) ==> ({
                let n = old(self).users.users@.len() as int;
                let u = final(self).users.users@[n];
                &&& !old(self).users.has_username(payload.username@)
                &&& final(self).users.users@.len() == n + 1
                &&& forall|j: int|
                    0 <= j < n ==> final(self).users.users@[j] == old(self).users.users@[j]
                &&& final(self).users.next_id == old(self).users.next_id + 1
                &&& u.username@ == payload.username@
                &&& bcrypt_matches(payload.password@, u.password_hash@)
                &&& crate::password::bcrypt_valid_hash(u.password_hash@)
                &&& u.password_hash@.len() == 60
                &&& u.password_hash@[0] == '$'
                &&& u.password_hash@[1] == '2'
                &&& u.is_admin == (payload.is_admin == Some(true))
                &&& u.id == old(self).users.next_id
                &&& u.created_at == now
                &&& u.updated_at == now
                &&& !u.totp_enabled
                &&& u.totp_secret is None
                &&& u.backup_codes is None
                &&& user_view_matches(u, v)
            }),
    {
        match self.users.lookup_username(payload.username.as_str()) {
            Some(_) => {
                return Err(AuthError::Conflict);
            },
            None => {},
        }
        let password_hash = match hash_password(payload.password.as_str()) {
            Ok(h) => h,
            Err(_) => {
                return Err(AuthError::Internal);
            },
        };
        let is_admin = payload.is_admin.unwrap_or(false);
        let i = match self.users.add_user(
            payload.username.clone(),
            password_hash,
            is_admin,
            now,
        ) {
            Ok(i) => i,
            Err(_) => {
                return Err(AuthError::Internal);
            },
        };
        let user = &self.users.users[i];
        Ok(
            UserResponse {
                id: user.id,
                username: user.username.clone(),
                is_admin: user.is_admin,
                created_at: user.created_at,
                updated_at: user.updated_at,
                totp_enabled: user.totp_enabled,
            },
        )
    }

    /// Creates an account, stamping it with the current clock.
    pub fn register(&mut self, payload: &CreateUserRequest) -> (r: Result<UserResponse, AuthError>)
        requires
            old(self).wf(),
        ensures
            final(self).wf(),
            final(self).jwt == old(self).jwt,
            final(self).notifications == old(self).notifications,
            r == Err::<UserResponse, AuthError>(AuthError::Conflict) <==> old(self).users.has_username(payload.username@),
            r matches Err(e) ==> (e == AuthError::Conflict || e == AuthError::Internal) && *final(self) == *old(self),
            r matches Ok(v) ==> ({
                let n = old(self).users.users@.len() as int;
                let u = final(self).users.users@[n];
                &&& !old(self).users.has_username(payload.username@)
                &&& final(self).users.users@.len() == n + 1
                &&& forall|j: int|
                    0 <= j < n ==> final(self).users.users@[j] == old(self).users.users@[j]
                &&& u.username@ == payload.username@
                &&& bcrypt_matches(payload.password@, u.password_hash@)
                &&& u.password_hash@.len() == 60
                &&& u.password_hash@[0] == '$'
                &&& u.password_hash@[1] == '2'
                &&& u.is_admin == (payload.is_admin == Some(true))
                &&& u.id == old(self).users.next_id
                &&& !u.totp_enabled
                &&& u.totp_secret is None
                &&& u.backup_codes is None
                &&& user_view_matches(u, v)
            }),
    {
        let now = crate::clock::current_timestamp();
        self.register_at(payload, now)
    }

    /// Resolves a token's subject to the stored record it names: a
    /// malformed subject is invalid input, a missing record (deleted after
    /// issuance) is not found, and otherwise the user's view is returned.
    pub fn get_current_user(&self, claims: &Claims) -> (r: Result<UserResponse, AuthError>)
        requires
            self.wf(),
        ensures
            r == Err::<UserResponse, AuthError>(AuthError::InvalidInput) <==> !parses_as_id(
                claims.sub@,
            ),
            parses_as_id(claims.sub@) ==> ({
                let id = dec_value(claims.sub@) as i64;
                &&& (r == Err::<UserResponse, AuthError>(AuthError::NotFound)
                    <==> !self.users.has_id(id))
                &&& (self.users.has_id(id) ==> (r matches Ok(v) && user_view_matches(
                    self.users.users@[self.users.index_of_id(id)],
                    v,
                )))
            }),
    {
        let id = match parse_user_id(claims.sub.as_str()) {
            Ok(v) => v,
            Err(e) => {
                return Err(e);
            },
        };
        let i = match self.users.lookup_id(id) {
            Some(i) => i,
            None => {
                return Err(AuthError::NotFound);
            },
        };
        let user = &self.users.users[i];
        Ok(
            UserResponse {
                id: user.id,
                username: user.username.clone(),
                is_admin: user.is_admin,
                created_at: user.created_at,
                updated_at: user.updated_at,
                totp_enabled: user.totp_enabled,
            },
        )
    }
    /// Resolves a token's subject to the position of the stored record it
    /// names: a malformed subject is invalid input, a missing record is not
    /// found.
    pub fn resolve_subject(&self, claims: &Claims) -> (r: Result<usize, AuthError>)
        requires
            self.wf(),
        ensures
            r == Err::<usize, AuthError>(AuthError::InvalidInput) <==> !parses_as_id(claims.sub@),
            parses_as_id(claims.sub@) ==> ({
                let id = dec_value(claims.sub@) as i64;
                &&& (r == Err::<usize, AuthError>(AuthError::NotFound) <==> !self.users.has_id(id))
                &&& (self.users.has_id(id) ==> (r matches Ok(i) && i < self.users.users@.len()
                    && i == self.users.index_of_id(id) && self.users.users@[i as int].id == id))
            }),
    {
        let id = match parse_user_id(claims.sub.as_str()) {
            Ok(v) => v,
            Err(e) => {
                return Err(e);
            },
        };
        match self.users.lookup_id(id) {
            Some(i) => Ok(i),
            None => Err(AuthError::NotFound),
        }
    }

    /// Begins second-factor enrollment for the subject: generates a fresh
    /// secret and backup codes, stores them on the record with the second
    /// factor still disabled, and returns the enrollment material.
    pub fn setup_2fa(&mut self, claims: &Claims) -> (r: Result<(TotpSetup, Vec<String>), AuthError>)
        requires
            old(self).wf(),
        ensures
            final(self).wf(),
            final(self).jwt == old(self).jwt,
            final(self).notifications == old(self).notifications,
            r matches Err(_) ==> *final(self) == *old(self),
            r == Err::<(TotpSetup, Vec<String>), AuthError>(AuthError::InvalidInput)
                <==> !parses_as_id(claims.sub@),
            parses_as_id(claims.sub@) ==> ({
                let id = dec_value(claims.sub@) as i64;
                &&& (r == Err::<(TotpSetup, Vec<String>), AuthError>(AuthError::NotFound)
                    <==> !old(self).users.has_id(id))
                &&& (old(self).users.has_id(id) ==> r is Ok)
                &&& (r matches Ok(p) ==> ({
                    let i = old(self).users.index_of_id(id);
                    let u0 = old(self).users.users@[i];
                    let u1 = final(self).users.users@[i];
                    &&& old(self).users.has_id(id)
                    &&& final(self).users.users@.len() == old(self).users.users@.len()
                    &&& final(self).users.next_id == old(self).users.next_id
                    &&& (forall|j: int|
                        0 <= j < old(self).users.users@.len() && j != i ==> final(self).users.users@[j] == old(self).users.users@[j])
                    &&& (u1.totp_secret matches Some(s) && s@ == p.0.secret@)
                    &&& !u1.totp_enabled
                    &&& (u1.backup_codes matches Some(c) && c@.len() == 8 && (forall|k: int|
                        0 <= k < 8 ==> (#[trigger] c@[k])@ == p.1@[k]@))
                    &&& u1.id == u0.id
                    &&& u1.username@ == u0.username@
                    &&& u1.password_hash == u0.password_hash
                    &&& u1.is_admin == u0.is_admin
                    &&& u1.created_at == u0.created_at
                    &&& u1.updated_at == u0.updated_at
                    &&& p.0.secret@.len() == 32
                    &&& (forall|k: int| 0 <= k < 32 ==> is_lower_hex(#[trigger] p.0.secret@[k]))
                    &&& p.0.manual_entry_key@ == p.0.secret@
                    &&& p.0.qr_code@ == otpauth_uri("Notification App"@, u0.username@, p.0.secret@)
                    &&& p.1@.len() == 8
                    &&& (forall|k: int| 0 <= k < 8 ==> is_backup_code(#[trigger] p.1@[k]@))
                }))
            }),
    {
        let i = match self.resolve_subject(claims) {
            Ok(i) => i,
            Err(e) => {
                return Err(e);
            },
        };
        let username = self.users.users[i].username.clone();
        let setup = crate::totp::generate_totp_secret(username.as_str(), "Notification App");
        let codes = crate::totp::generate_backup_codes();
        let codes_out = crate::text::clone_string_vec(&codes);
        let secret_store = setup.secret.clone();
        self.users.set_totp_material(i, secret_store, codes);
        Ok((setup, codes_out))
    }

    /// Confirms enrollment: a valid one-time code for the stored secret
    /// turns the second factor on; an invalid code changes nothing and is
    /// reported as `Ok(false)`. A subject with no stored secret cannot
    /// confirm.
    pub fn enable_2fa_at(
        &mut self,
        claims: &Claims,
        verification: &TotpVerification,
        now: u64,
    ) -> (r: Result<bool, AuthError>)
        requires
            old(self).wf(),
        ensures
            final(self).wf(),
            final(self).jwt == old(self).jwt,
            final(self).notifications == old(self).notifications,
            r matches Err(_) ==> *final(self) == *old(self),
            r matches Ok(b) && !b ==> *final(self) == *old(self),
            r == Err::<bool, AuthError>(AuthError::InvalidInput) <==> (!parses_as_id(claims.sub@)
                || (parses_as_id(claims.sub@) && old(self).users.has_id(
                dec_value(claims.sub@) as i64,
            ) && old(self).users.users@[old(self).users.index_of_id(
                dec_value(claims.sub@) as i64,
            )].totp_secret is None)),
            parses_as_id(claims.sub@) ==> ({
                let id = dec_value(claims.sub@) as i64;
                let i = old(self).users.index_of_id(id);
                let u0 = old(self).users.users@[i];
                &&& (r == Err::<bool, AuthError>(AuthError::NotFound) <==> !old(self).users.has_id(
                    id,
                ))
                &&& (old(self).users.has_id(id) ==> (u0.totp_secret matches Some(s) ==> ({
                    &&& (r matches Ok(b) && b == crate::totp::totp_code_accepted(
                        s@,
                        verification.code@,
                        now,
                    ))
                    &&& (r == Ok::<bool, AuthError>(true) ==> ({
                        &&& final(self).users.users@.len() == old(self).users.users@.len()
                        &&& final(self).users.next_id == old(self).users.next_id
                        &&& (forall|j: int|
                            0 <= j < old(self).users.users@.len() && j != i ==> final(self).users.users@[j] == old(self).users.users@[j])
                        &&& final(self).users.users@[i] == (User { totp_enabled: true, ..u0 })
                    }))
                })))
            }),
    {
        let i = match self.resolve_subject(claims) {
            Ok(i) => i,
            Err(e) => {
                return Err(e);
            },
        };
        let secret = match &self.users.users[i].totp_secret {
            Some(s) => s.clone(),
            None => {
                return Err(AuthError::InvalidInput);
            },
        };
        let ok = crate::totp::verify_totp_code_at(
            secret.as_str(),
            verification.code.as_str(),
            now,
        );
        if !ok {
            return Ok(false);
        }
        self.users.enable_totp(i);
        Ok(true)
    }

    /// Confirms enrollment against the current clock.
    pub fn enable_2fa(&mut self, claims: &Claims, verification: &TotpVerification) -> (r: Result<
        bool,
        AuthError,
    >)
        requires
            old(self).wf(),
        ensures
            final(self).wf(),
            final(self).jwt == old(self).jwt,
            final(self).notifications == old(self).notifications,
            r matches Err(_) ==> *final(self) == *old(self),
            r matches Ok(b) && !b ==> *final(self) == *old(self),
            r == Err::<bool, AuthError>(AuthError::InvalidInput) <==> (!parses_as_id(claims.sub@)
                || (parses_as_id(claims.sub@) && old(self).users.has_id(
                dec_value(claims.sub@) as i64,
            ) && old(self).users.users@[old(self).users.index_of_id(
                dec_value(claims.sub@) as i64,
            )].totp_secret is None)),
            parses_as_id(claims.sub@) ==> ({
                let id = dec_value(claims.sub@) as i64;
                let i = old(self).users.index_of_id(id);
                let u0 = old(self).users.users@[i];
                &&& (r == Err::<bool, AuthError>(AuthError::NotFound) <==> !old(self).users.has_id(
                    id,
                ))
                &&& (old(self).users.has_id(id) ==> (u0.totp_secret matches Some(s) ==> ({
                    &&& r is Ok
                    &&& (r == Ok::<bool, AuthError>(true) ==> ({
                        &&& (exists|t: u64|
                            #[trigger] crate::totp::totp_code_accepted(s@, verification.code@, t))
                        &&& final(self).users.users@.len() == old(self).users.users@.len()
                        &&& final(self).users.next_id == old(self).users.next_id
                        &&& (forall|j: int|
                            0 <= j < old(self).users.users@.len() && j != i ==> final(self).users.users@[j] == old(self).users.users@[j])
                        &&& final(self).users.users@[i] == (User { totp_enabled: true, ..u0 })
                    }))
                })))
            }),
    {
        let now = crate::clock::current_timestamp();
        let now_secs: u64 = if now < 0 {
            0
        } else {
            now as u64
        };
        self.enable_2fa_at(claims, verification, now_secs)
    }

    /// Turns the second factor off: with it enabled and a valid one-time
    /// code, all second-factor material is purged; an invalid code, or a
    /// second factor that is not enabled, changes nothing and is reported
    /// as `Ok(false)`.
    pub fn disable_2fa_at(
        &mut self,
        claims: &Claims,
        verification: &TotpVerification,
        now: u64,
    ) -> (r: Result<bool, AuthError>)
        requires
            old(self).wf(),
        ensures
            final(self).wf(),
            final(self).jwt == old(self).jwt,
            final(self).notifications == old(self).notifications,
            r matches Err(_) ==> *final(self) == *old(self),
            r matches Ok(b) && !b ==> *final(self) == *old(self),
            r == Err::<bool, AuthError>(AuthError::InvalidInput) <==> !parses_as_id(claims.sub@),
            parses_as_id(claims.sub@) ==> ({
                let id = dec_value(claims.sub@) as i64;
                let i = old(self).users.index_of_id(id);
                let u0 = old(self).users.users@[i];
                &&& (r == Err::<bool, AuthError>(AuthError::NotFound) <==> !old(self).users.has_id(
                    id,
                ))
                &&& ((old(self).users.has_id(id) && !u0.totp_enabled) ==> r == Ok::<
                    bool,
                    AuthError,
                >(false))
                &&& ((old(self).users.has_id(id) && u0.totp_enabled) ==> (u0.totp_secret matches Some(s) ==> ({
                    &&& (r matches Ok(b) && b == crate::totp::totp_code_accepted(
                        s@,
                        verification.code@,
                        now,
                    ))
                    &&& (r == Ok::<bool, AuthError>(true) ==> ({
                        &&& final(self).users.users@.len() == old(self).users.users@.len()
                        &&& final(self).users.next_id == old(self).users.next_id
                        &&& (forall|j: int|
                            0 <= j < old(self).users.users@.len() && j != i ==> final(self).users.users@[j] == old(self).users.users@[j])
                        &&& final(self).users.users@[i] == (User {
                            totp_secret: None,
                            totp_enabled: false,
                            backup_codes: None,
                            ..u0
                        })
                    }))
                })))
            }),
    {
        let i = match self.resolve_subject(claims) {
            Ok(i) => i,
            Err(e) => {
                return Err(e);
            },
        };
        if !self.users.users[i].totp_enabled {
            return Ok(false);
        }
        let secret = match &self.users.users[i].totp_secret {
            Some(s) => s.clone(),
            None => {
                proof {
                    assert(false);
                }
                return Err(AuthError::InvalidInput);
            },
        };
        let ok = crate::totp::verify_totp_code_at(
            secret.as_str(),
            verification.code.as_str(),
            now,
        );
        if !ok {
            return Ok(false);
        }
        self.users.clear_totp(i);
        Ok(true)
    }

    /// Turns the second factor off against the current clock.
    pub fn disable_2fa(&mut self, claims: &Claims, verification: &TotpVerification) -> (r: Result<
        bool,
        AuthError,
    >)
        requires
            old(self).wf(),
        ensures
            final(self).wf(),
            final(self).jwt == old(self).jwt,
            final(self).notifications == old(self).notifications,
            r matches Err(_) ==> *final(self) == *old(self),
            r matches Ok(b) && !b ==> *final(self) == *old(self),
            r == Err::<bool, AuthError>(AuthError::InvalidInput) <==> !parses_as_id(claims.sub@),
            parses_as_id(claims.sub@) ==> ({
                let id = dec_value(claims.sub@) as i64;
                let i = old(self).users.index_of_id(id);
                let u0 = old(self).users.users@[i];
                &&& (r == Err::<bool, AuthError>(AuthError::NotFound) <==> !old(self).users.has_id(
                    id,
                ))
                &&& ((old(self).users.has_id(id) && !u0.totp_enabled) ==> r == Ok::<
                    bool,
                    AuthError,
                >(false))
                &&& ((old(self).users.has_id(id) && u0.totp_enabled) ==> (u0.totp_secret matches Some(s) ==> ({
                    &&& r is Ok
                    &&& (r == Ok::<bool, AuthError>(true) ==> exists|t: u64|
                        #[trigger] crate::totp::totp_code_accepted(s@, verification.code@, t))
                })))
                &&& (r == Ok::<bool, AuthError>(true) ==> ({
                    &&& old(self).users.has_id(id)
                    &&& u0.totp_enabled
                    &&& final(self).users.users@.len() == old(self).users.users@.len()
                    &&& (forall|j: int|
                        0 <= j < old(self).users.users@.len() && j != i ==> final(self).users.users@[j] == old(self).users.users@[j])
                    &&& final(self).users.users@[i] == (User {
                        totp_secret: None,
                        totp_enabled: false,
                        backup_codes: None,
                        ..u0
                    })
                }))
            }),
    {
        let now = crate::clock::current_timestamp();
        let now_secs: u64 = if now < 0 {
            0
        } else {
            now as u64
        };
        self.disable_2fa_at(claims, verification, now_secs)
    }

    /// Reports whether the subject's second factor is enabled; no
    /// validation is performed.
    pub fn get_2fa_status(&self, claims: &Claims) -> (r: Result<bool, AuthError>)
        requires
            self.wf(),
        ensures
            r == Err::<bool, AuthError>(AuthError::InvalidInput) <==> !parses_as_id(claims.sub@),
            parses_as_id(claims.sub@) ==> ({
                let id = dec_value(claims.sub@) as i64;
                &&& (r == Err::<bool, AuthError>(AuthError::NotFound) <==> !self.users.has_id(id))
                &&& (self.users.has_id(id) ==> r == Ok::<bool, AuthError>(
                    self.users.users@[self.users.index_of_id(id)].totp_enabled,
                ))
            }),
    {
        let i = match self.resolve_subject(claims) {
            Ok(i) => i,
            Err(e) => {
                return Err(e);
            },
        };
        Ok(self.users.users[i].totp_enabled)
    }
}

/// Whether the view `r` shows exactly the announcement `n`, joined with the
/// author's username from `users` when the author exists.
pub open spec fn notif_view_matches(
    users: UserStore,
    n: Notification,
    r: NotificationResponse,
) -> bool {
    &&& r.id == n.id
    &&& r.title@ == n.title@
    &&& r.content@ == n.content@
    &&& r.priority@ == n.priority@
    &&& r.author_id == n.author_id
    &&& (users.has_id(n.author_id) ==> (r.author_username matches Some(s) && s@
        == users.users@[users.index_of_id(n.author_id)].username@))
    &&& (!users.has_id(n.author_id) ==> r.author_username is None)
    &&& r.is_published == n.is_published
    &&& r.created_at == n.created_at
    &&& r.updated_at == n.updated_at
    &&& r.attachments@.len() == 0
}

/// The page number a listing was asked for, one when absent.
pub open spec fn page_raw(q: NotificationQuery) -> u32 {
    match q.page {
        Some(p) => p,
        None => 1,
    }
}

/// The page number a listing is answered under: as asked, but at least one.
pub open spec fn page_eff(q: NotificationQuery) -> u32 {
    if page_raw(q) == 0 {
        1
    } else {
        page_raw(q)
    }
}

/// The page size a listing is answered under: ten when absent, at most a
/// hundred.
pub open spec fn per_page_eff(q: NotificationQuery) -> u32 {
    let pp = match q.per_page {
        Some(p) => p,
        None => 10u32,
    };
    if pp > 100 {
        100
    } else {
        pp
    }
}

/// The number of pages a total splits into: the ceiling of total over page
/// size, zero for a zero page size, clipped to the counter type.
pub open spec fn pages_spec(total: int, per: int) -> int {
    if per <= 0 {
        0
    } else if (total + per - 1) / per > u32::MAX {
        u32::MAX as int
    } else {
        (total + per - 1) / per
    }
}

/// The published list is never longer than the store.
pub proof fn lemma_published_desc_len(items: Seq<Notification>)
    ensures
        published_desc(items).len() <= items.len(),
    decreases items.len(),
{
    if items.len() > 0 {
        lemma_published_desc_len(items.drop_last());
    }
}

impl Service {
    /// One announcement's public view, with the author's username joined in.
    fn build_notification_response(&self, i: usize) -> (r: NotificationResponse)
        requires
            self.wf(),
            i < self.notifications.items@.len(),
        ensures
            notif_view_matches(self.users, self.notifications.items@[i as int], r),
    {
        let n = &self.notifications.items[i];
        let author_username = match self.users.lookup_id(n.author_id) {
            Some(j) => Some(self.users.users[j].username.clone()),
            None => None,
        };
        NotificationResponse {
            id: n.id,
            title: n.title.clone(),
            content: n.content.clone(),
            priority: n.priority.clone(),
            author_id: n.author_id,
            author_username,
            is_published: n.is_published,
            created_at: n.created_at,
            updated_at: n.updated_at,
            attachments: Vec::new(),
        }
    }

    /// Looks one published announcement up by identifier.
    pub fn get_notification(&self, id: i64) -> (r: Result<NotificationResponse, AuthError>)
        requires
            self.wf(),
        ensures
            r is Ok <==> has_published_id(self.notifications.items@, id),
            r matches Err(e) ==> e == AuthError::NotFound,
            r matches Ok(resp) ==> exists|i: int|
                0 <= i < self.notifications.items@.len() && (
                #[trigger] self.notifications.items@[i]).id == id
                    && self.notifications.items@[i].is_published && notif_view_matches(
                    self.users,
                    self.notifications.items@[i],
                    resp,
                ),
    {
        match self.notifications.lookup_published(id) {
            Some(i) => Ok(self.build_notification_response(i)),
            None => Err(AuthError::NotFound),
        }
    }

    /// Lists one page of the published announcements, newest first, with
    /// the total, the page count, and the paging figures answered under.
    pub fn get_notifications(&self, query: &NotificationQuery) -> (r: NotificationListResponse)
        requires
            self.wf(),
        ensures
            ({
                let full = published_desc(self.notifications.items@);
                let per = per_page_eff(*query) as int;
                let page = page_eff(*query) as int;
                let offset = (page - 1) * per;
                let lo = if offset <= full.len() {
                    offset
                } else {
                    full.len() as int
                };
                let hi = if offset + per <= full.len() {
                    offset + per
                } else {
                    full.len() as int
                };
                &&& r.total == full.len()
                &&& r.per_page == per_page_eff(*query)
                &&& r.current_page == page_raw(*query)
                &&& r.pages == pages_spec(full.len() as int, per)
                &&& r.notifications@.len() == hi - lo
                &&& (forall|k: int|
                    0 <= k < hi - lo ==> notif_view_matches(
                        self.users,
                        full[lo + k],
                        #[trigger] r.notifications@[k],
                    ))
                &&& (forall|k1: int, k2: int|
                    0 <= k1 < k2 < hi - lo ==> (#[trigger] r.notifications@[k1]).created_at >= (
                    #[trigger] r.notifications@[k2]).created_at)
            }),
    {
        let ghost full = published_desc(self.notifications.items@);
        let idxs = self.notifications.published_indexes_desc();
        let total: usize = idxs.len();
        proof {
            lemma_published_desc_len(self.notifications.items@);
            NotificationStore::lemma_published_desc_sorted(self.notifications.items@);
            if self.notifications.items@.len() > 0 {
                self.notifications.lemma_id_bounds_len(self.notifications.items@.len() - 1);
            }
        }
        let total64: u64 = total as u64;
        let page: u32 = match query.page {
            Some(p) => p,
            None => 1,
        };
        let page_e: u32 = if page == 0 {
            1
        } else {
            page
        };
        let per: u32 = match query.per_page {
            Some(p) => p,
            None => 10,
        };
        let per_e: u32 = if per > 100 {
            100
        } else {
            per
        };
        proof {
            assert((page_e as u64 - 1) * (per_e as u64) <= 0xffff_ffffu64 * 100)
                by (nonlinear_arith)
                requires
                    1 <= page_e <= 0xffff_ffffu64 + 1,
                    per_e <= 100,
            ;
        }
        let offset: u64 = (page_e as u64 - 1) * (per_e as u64);
        let lo64: u64 = if offset <= total64 {
            offset
        } else {
            total64
        };
        let hi64: u64 = if offset + per_e as u64 <= total64 {
            offset + per_e as u64
        } else {
            total64
        };
        let pages: u32 = if per_e == 0 {
            0
        } else {
            let p64: u64 = (total64 + per_e as u64 - 1) / (per_e as u64);
            if p64 > 0xffff_ffff {
                u32::MAX
            } else {
                p64 as u32
            }
        };
        let mut out: Vec<NotificationResponse> = Vec::new();
        let mut k: u64 = lo64;
        while k < hi64
            invariant
                self.wf(),
                full == published_desc(self.notifications.items@),
                lo64 <= k <= hi64,
                hi64 <= total64,
                total64 == idxs@.len(),
                idxs@.len() == full.len(),
                forall|m: int|
                    0 <= m < idxs@.len() ==> (#[trigger] idxs@[m]) < self.notifications.items@.len()
                        && self.notifications.items@[idxs@[m] as int] == full[m],
                out@.len() == k - lo64,
                forall|m: int|
                    0 <= m < out@.len() ==> notif_view_matches(
                        self.users,
                        full[lo64 + m],
                        #[trigger] out@[m],
                    ),
            decreases hi64 - k,
        {
            let i = idxs[k as usize];
            let resp = self.build_notification_response(i);
            out.push(resp);
            k = k + 1;
        }
        NotificationListResponse {
            notifications: out,
            total: total as i64,
            pages,
            current_page: page,
            per_page: per_e,
        }
    }

    /// Posts an announcement on behalf of the token's subject: only an
    /// administrator may post; priority defaults to medium and visibility
    /// to published. The new announcement's view is returned.
    pub fn create_notification_at(
        &mut self,
        claims: &Claims,
        payload: &CreateNotificationRequest,
        now: i64,
    ) -> (r: Result<NotificationResponse, AuthError>)
        requires
            old(self).wf(),
        ensures
            final(self).wf(),
            final(self).jwt == old(self).jwt,
            final(self).users == old(self).users,
            r matches Err(_) ==> *final(self) == *old(self),
            r matches Err(e) ==> e == AuthError::InvalidInput || e == AuthError::NotFound || e
                == AuthError::Forbidden || e == AuthError::Internal,
            r == Err::<NotificationResponse, AuthError>(AuthError::InvalidInput)
                <==> !parses_as_id(claims.sub@),
            parses_as_id(claims.sub@) ==> ({
                let id = dec_value(claims.sub@) as i64;
                let i = old(self).users.index_of_id(id);
                &&& (r == Err::<NotificationResponse, AuthError>(AuthError::NotFound) <==> !old(
                    self,
                ).users.has_id(id))
                &&& (old(self).users.has_id(id) ==> ({
                    let author = old(self).users.users@[i];
                    &&& (r == Err::<NotificationResponse, AuthError>(AuthError::Forbidden)
                        <==> !author.is_admin)
                    &&& (author.is_admin ==> (r is Ok <==> old(self).notifications.next_id
                        < i64::MAX))
                    &&& (r matches Ok(resp) ==> ({
                        let m = old(self).notifications.items@.len() as int;
                        let n = final(self).notifications.items@[m];
                        &&& author.is_admin
                        &&& final(self).notifications.items@.len() == m + 1
                        &&& (forall|j: int|
                            0 <= j < m ==> final(self).notifications.items@[j] == old(
                                self,
                            ).notifications.items@[j])
                        &&& n.id == old(self).notifications.next_id
                        &&& n.title@ == payload.title@
                        &&& n.content@ == payload.content@
                        &&& (match payload.priority {
                            Some(p) => n.priority@ == p@,
                            None => n.priority@ == "medium"@,
                        })
                        &&& n.author_id == id
                        &&& n.is_published == (payload.is_published != Some(false))
                        &&& n.created_at == NotificationStore::stamp_of(
                            old(self).notifications.items@,
                            now,
                        )
                        &&& n.updated_at == NotificationStore::stamp_of(
                            old(self).notifications.items@,
                            now,
                        )
                        &&& notif_view_matches(final(self).users, n, resp)
                    }))
                }))
            }),
    {
        let i = match self.resolve_subject(claims) {
            Ok(i) => i,
            Err(e) => {
                return Err(e);
            },
        };
        if !self.users.users[i].is_admin {
            return Err(AuthError::Forbidden);
        }
        let author_id = self.users.users[i].id;
        let priority = match &payload.priority {
            Some(p) => p.clone(),
            None => {
                proof {
                    reveal_strlit("medium");
                }
                String::from_str("medium")
            },
        };
        let is_published = payload.is_published.unwrap_or(true);
        let m = match self.notifications.add_notification(
            payload.title.clone(),
            payload.content.clone(),
            priority,
            author_id,
            is_published,
            now,
        ) {
            Ok(m) => m,
            Err(_) => {
                return Err(AuthError::Internal);
            },
        };
        Ok(self.build_notification_response(m))
    }

    /// Posts an announcement, stamping it with the current clock.
    pub fn create_notification(
        &mut self,
        claims: &Claims,
        payload: &CreateNotificationRequest,
    ) -> (r: Result<NotificationResponse, AuthError>)
        requires
            old(self).wf(),
        ensures
            final(self).wf(),
            final(self).jwt == old(self).jwt,
            final(self).users == old(self).users,
            r matches Err(_) ==> *final(self) == *old(self),
            r == Err::<NotificationResponse, AuthError>(AuthError::InvalidInput)
                <==> !parses_as_id(claims.sub@),
            parses_as_id(claims.sub@) ==> ({
                let id = dec_value(claims.sub@) as i64;
                let i = old(self).users.index_of_id(id);
                &&& (r == Err::<NotificationResponse, AuthError>(AuthError::NotFound) <==> !old(
                    self,
                ).users.has_id(id))
                &&& (old(self).users.has_id(id) ==> ({
                    let author = old(self).users.users@[i];
                    &&& (r == Err::<NotificationResponse, AuthError>(AuthError::Forbidden)
                        <==> !author.is_admin)
                    &&& (author.is_admin ==> (r is Ok <==> old(self).notifications.next_id
                        < i64::MAX))
                    &&& (r matches Ok(resp) ==> ({
                        let m = old(self).notifications.items@.len() as int;
                        let n = final(self).notifications.items@[m];
                        &&& author.is_admin
                        &&& final(self).notifications.items@.len() == m + 1
                        &&& (forall|j: int|
                            0 <= j < m ==> final(self).notifications.items@[j] == old(
                                self,
                            ).notifications.items@[j])
                        &&& n.id == old(self).notifications.next_id
                        &&& n.title@ == payload.title@
                        &&& n.content@ == payload.content@
                        &&& n.author_id == id
                        &&& n.is_published == (payload.is_published != Some(false))
                        &&& notif_view_matches(final(self).users, n, resp)
                    }))
                }))
            }),
    {
        let now = crate::clock::current_timestamp();
        self.create_notification_at(claims, payload, now)
    }
}

/// Acknowledges a logout. Tokens are stateless, so there is no server-side
/// session to invalidate.
pub fn logout() -> (r: &'static str)
    ensures
        r@ == "logged out"@,
{
    "logged out"
}

} // verus!
