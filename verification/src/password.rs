use vstd::prelude::*;

use crate::errors::AuthError;

verus! {

/// Whether `bcrypt::verify` accepts `password` against the stored `hash`.
/// The check recomputes the hash from the password and the cost and salt
/// embedded in `hash`, so it is a function of the two strings alone.
pub uninterp spec fn bcrypt_matches(password: Seq<char>, hash: Seq<char>) -> bool;

/// Whether `hash` is a well-formed bcrypt hash string: the shape
/// `bcrypt::verify` parses (60 characters, recognised prefix, in-range cost,
/// valid salt and digest encoding). `bcrypt::verify` returns `Ok` exactly on
/// such strings; this too depends on the hash string alone.
pub uninterp spec fn bcrypt_valid_hash(hash: Seq<char>) -> bool;

/// What `verify_password` promises of its result.
pub open spec fn verify_password_post(password: Seq<char>, hash: Seq<char>, r: Result<
    bool,
    AuthError,
>) -> bool {
    &&& r matches Ok(b) ==> bcrypt_valid_hash(hash) && b == bcrypt_matches(password, hash)
    &&& r matches Err(e) ==> e == AuthError::Internal && !bcrypt_valid_hash(hash)
}

/// One-way hash of a password for storage, with a fresh random salt embedded
/// in the output; the cost factor is the library default.
///
/// Relies on `bcrypt::hash`: on success the result is a well-formed bcrypt
/// hash that `bcrypt::verify` accepts for this password (the verifier
/// recomputes from the cost and salt carried in the hash itself), rendered
/// in the fixed 60-character `$2…` format — so it is never the plaintext of
/// any password under 60 characters. The salt is random, so nothing further
/// is assumed about which string comes back; the only failure source is the
/// operating system's random number generator.
#[verifier::external_body]
pub fn hash_password(password: &str) -> (r: Result<String, AuthError>)
    ensures
        r matches Ok(h) ==> bcrypt_valid_hash(h@) && bcrypt_matches(password@, h@) && h@.len()
            == 60 && h@[0] == '$' && h@[1] == '2',
        r matches Err(e) ==> e == AuthError::Internal,
{
    match bcrypt::hash(password, bcrypt::DEFAULT_COST) {
        Ok(h) => Ok(h),
        Err(_) => Err(AuthError::Internal),
    }
}

/// Checks a password against a stored hash; `Ok(false)` on mismatch, an
/// error only on a malformed hash.
///
/// Relies on `bcrypt::verify`: it errs exactly when the hash string cannot
/// be parsed as a bcrypt hash, and otherwise reports whether the recomputed
/// digest matches, a deterministic function of password and hash.
#[verifier::external_body]
pub fn verify_password(password: &str, hash: &str) -> (r: Result<bool, AuthError>)
    ensures
        verify_password_post(password@, hash@, r),
{
    match bcrypt::verify(password, hash) {
        Ok(b) => Ok(b),
        Err(_) => Err(AuthError::Internal),
    }
}

/// Law: a password verifies against its own hash. `hash_password` only
/// returns well-formed hashes that match the hashed password, and on such a
/// pair `verify_password` can only answer `Ok(true)`.
pub proof fn lemma_password_roundtrip(password: Seq<char>, hash: Seq<char>, r: Result<
    bool,
    AuthError,
>)
    requires
        bcrypt_valid_hash(hash),
        bcrypt_matches(password, hash),
        verify_password_post(password, hash, r),
    ensures
        r == Ok::<bool, AuthError>(true),
{
}

} // verus!
