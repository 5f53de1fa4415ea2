use vstd::prelude::*;

use crate::notification::{Notification, has_published_id, published_desc};
use crate::numeric::{dec_digits, dec_value, lemma_dec_digits_roundtrip, parses_as_id};
use crate::password::bcrypt_matches;
use crate::service::{Service, credentials_match};
use crate::token::{Claims, token_of, verify_token_post};
use crate::user::User;
use crate::errors::AuthError;

verus! {

/// Law: a pair registered once logs in. `register_at` leaves a record whose
/// username is the registered one and whose stored hash the registered
/// password verifies against; such a record is exactly a credential match,
/// so `login_at` on the same store cannot answer `Unauthorized` for the
/// same pair.
pub proof fn lemma_registered_credentials_login(
    s: Service,
    username: Seq<char>,
    password: Seq<char>,
    i: int,
)
    requires
        0 <= i < s.users.users@.len(),
        s.users.users@[i].username@ == username,
        bcrypt_matches(password, s.users.users@[i].password_hash@),
    ensures
        credentials_match(s.users, username, password),
{
}

/// Law: the token a login issues identifies the logged-in user. A token
/// carrying the registered identifier's decimal rendering as its subject,
/// verified before its expiry, yields claims whose subject parses back to
/// exactly that identifier and whose username is the registered one.
pub proof fn lemma_login_token_identifies_user(
    secret: Seq<char>,
    id: i64,
    username: Seq<char>,
    exp: i64,
    iat: i64,
    now: i64,
    r: Result<Claims, AuthError>,
)
    requires
        id >= 0,
        verify_token_post(
            secret,
            token_of(dec_digits(id as nat), username, exp, iat, secret),
            now,
            r,
        ),
        now < exp,
    ensures
        r matches Ok(c) && {
            &&& c.sub@ == dec_digits(id as nat)
            &&& parses_as_id(c.sub@)
            &&& dec_value(c.sub@) == id
            &&& c.username@ == username
            &&& c.exp == exp
            &&& c.iat == iat
        },
{
    lemma_dec_digits_roundtrip(id as nat);
}

/// Law: a second registration of a taken username is a conflict. A store
/// holding a record under a username answers `has_username` for it, so
/// `register_at` on that store must return `Conflict` by its contract — and
/// its contract further leaves the store, and so the first user's record,
/// unchanged on every error.
pub proof fn lemma_duplicate_registration_conflicts(s: Service, username: Seq<char>, n: int)
    requires
        0 <= n < s.users.users@.len(),
        s.users.users@[n].username@ == username,
    ensures
        s.users.has_username(username),
{
}

/// Law: the second-factor lifecycle. Beginning enrollment stores a secret
/// with the flag still off, so the status reads disabled until a
/// confirmation succeeds; a successful confirmation only flips the flag on;
/// a successful disable purges secret, flag and backup codes — after which
/// the record holds no secret, and a replayed confirmation is rejected as
/// not enrolled by `enable_2fa_at`'s contract.
pub proof fn lemma_second_factor_lifecycle(
    after_setup: User,
    after_enable: User,
    after_disable: User,
)
    requires
        after_setup.totp_secret is Some,
        !after_setup.totp_enabled,
        after_enable == (User { totp_enabled: true, ..after_setup }),
        after_disable == (User {
            totp_secret: None,
            totp_enabled: false,
            backup_codes: None,
            ..after_enable
        }),
    ensures
        !after_setup.totp_enabled,
        after_enable.totp_enabled,
        after_enable.totp_secret == after_setup.totp_secret,
        !after_disable.totp_enabled,
        after_disable.totp_secret is None,
        after_disable.backup_codes is None,
{
}

/// Law: a just-posted published announcement is immediately retrievable:
/// a lookup of its identifier finds it, and it stands first in the
/// newest-first published listing.
pub proof fn lemma_created_notification_listed(items: Seq<Notification>, n: Notification)
    requires
        items.len() > 0,
        items.last() == n,
        n.is_published,
    ensures
        has_published_id(items, n.id),
        published_desc(items).len() > 0,
        published_desc(items)[0] == n,
{
    assert(items[items.len() - 1].id == n.id && items[items.len() - 1].is_published);
    assert(published_desc(items) == seq![n] + published_desc(items.drop_last()));
    assert(published_desc(items)[0] == n);
}

} // verus!
