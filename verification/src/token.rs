use vstd::prelude::*;

use crate::errors::AuthError;
use crate::numeric::dec_digits;

verus! {

/// The decoded payload of an identity token: subject (user identifier in
/// decimal), username, expiry and issued-at timestamps (seconds).
#[derive(Clone, Debug)]
pub struct Claims {
    pub sub: String,
    pub username: String,
    pub exp: i64,
    pub iat: i64,
}

/// The signed token that `jsonwebtoken::encode` produces for the claims set
/// `{sub, username, exp, iat}` under an HMAC secret with the default header.
/// The claims map is serialized with sorted keys and the signature is a
/// function of payload and secret, so the token is a function of these
/// arguments alone.
pub uninterp spec fn token_of(
    sub: Seq<char>,
    username: Seq<char>,
    exp: i64,
    iat: i64,
    secret: Seq<char>,
) -> Seq<char>;

/// Relies on `jsonwebtoken::encode` with the default header (HS256) and an
/// HMAC secret: the encoded token is the deterministic value named
/// `token_of`. For an HMAC-family key the call cannot fail — the signer
/// accepts any key length, HMAC signing is infallible, and serializing the
/// string-keyed claims map cannot err — so the call always succeeds.
#[verifier::external_body]
fn jwt_encode(sub: &str, username: &str, exp: i64, iat: i64, secret: &str) -> (r: Result<
    String,
    AuthError,
>)
    ensures
        r is Ok,
        r matches Ok(t) ==> t@ == token_of(sub@, username@, exp, iat, secret@),
{
    let mut claims = serde_json::Map::new();
    claims.insert("sub".to_owned(), serde_json::Value::from(sub));
    claims.insert("username".to_owned(), serde_json::Value::from(username));
    claims.insert("exp".to_owned(), serde_json::Value::from(exp));
    claims.insert("iat".to_owned(), serde_json::Value::from(iat));
    let key = jsonwebtoken::EncodingKey::from_secret(secret.as_bytes());
    let value = serde_json::Value::Object(claims);
    match jsonwebtoken::encode(&jsonwebtoken::Header::default(), &value, &key) {
        Ok(t) => Ok(t),
        Err(_) => Err(AuthError::Internal),
    }
}

/// What `jwt_decode` promises of its result: a token encoded from a known
/// claims set under the same secret decodes back to exactly those claims,
/// and any rejection is a failed authentication.
pub open spec fn jwt_decode_post(token: Seq<char>, secret: Seq<char>, r: Result<
    Claims,
    AuthError,
>) -> bool {
    &&& forall|sub: Seq<char>, username: Seq<char>, exp: i64, iat: i64|
        token == token_of(sub, username, exp, iat, secret) ==> {
            &&& r matches Ok(c)
            &&& c.sub@ == sub
            &&& c.username@ == username
            &&& c.exp == exp
            &&& c.iat == iat
        }
    &&& (r matches Err(e) ==> e == AuthError::Unauthorized)
}

/// Relies on `jsonwebtoken::decode` with HS256 signature validation and the
/// expiry check turned off (the caller checks expiry against its own clock):
/// a token that `jsonwebtoken::encode` produced for some claims under the
/// same secret decodes back to exactly those claims; any rejection is a
/// failed authentication.
#[verifier::external_body]
fn jwt_decode(token: &str, secret: &str) -> (r: Result<Claims, AuthError>)
    ensures
        jwt_decode_post(token@, secret@, r),
{
    let mut validation = jsonwebtoken::Validation::default();
    validation.validate_exp = false;
    validation.required_spec_claims = std::collections::HashSet::new();
    let key = jsonwebtoken::DecodingKey::from_secret(secret.as_bytes());
    let data = match jsonwebtoken::decode::<serde_json::Value>(token, &key, &validation) {
        Ok(d) => d.claims,
        Err(_) => return Err(AuthError::Unauthorized),
    };
    match (data["sub"].as_str(), data["username"].as_str(), data["exp"].as_i64(),
        data["iat"].as_i64()) {
        (Some(s), Some(u), Some(e), Some(i)) => Ok(
            Claims { sub: s.to_owned(), username: u.to_owned(), exp: e, iat: i },
        ),
        _ => Err(AuthError::Unauthorized),
    }
}

/// What `verify_token_at` promises of its result: a token carrying a known
/// claims set is accepted exactly while the clock is before its expiry, and
/// everything accepted is unexpired.
pub open spec fn verify_token_post(
    secret: Seq<char>,
    token: Seq<char>,
    now: i64,
    r: Result<Claims, AuthError>,
) -> bool {
    &&& forall|sub: Seq<char>, username: Seq<char>, exp: i64, iat: i64|
        token == token_of(sub, username, exp, iat, secret) && exp > now ==> {
            &&& r matches Ok(c)
            &&& c.sub@ == sub
            &&& c.username@ == username
            &&& c.exp == exp
            &&& c.iat == iat
        }
    &&& forall|sub: Seq<char>, username: Seq<char>, exp: i64, iat: i64|
        token == token_of(sub, username, exp, iat, secret) && exp <= now ==> (r matches Err(e)
            && e == AuthError::Unauthorized)
    &&& (r matches Ok(c) ==> c.exp > now)
    &&& (r matches Err(e) ==> e == AuthError::Unauthorized)
}

/// Issues and checks identity tokens under one process-wide secret and a
/// configured time-to-live, both fixed at construction.
pub struct JwtUtils {
    pub secret: String,
    pub ttl_seconds: i64,
}

impl JwtUtils {
    /// A token component is well formed when its time-to-live is not
    /// negative.
    pub open spec fn wf(&self) -> bool {
        self.ttl_seconds >= 0
    }

    pub fn new(secret: String, ttl_seconds: i64) -> (r: JwtUtils)
        requires
            ttl_seconds >= 0,
        ensures
            r.secret == secret,
            r.ttl_seconds == ttl_seconds,
            r.wf(),
    {
        JwtUtils { secret, ttl_seconds }
    }

    /// Issues a token for the user whose claims are `iat = now` and
    /// `exp = now + ttl`; fails exactly when the expiry would not fit the
    /// timestamp type.
    pub fn generate_token_at(&self, user_id: i64, username: &str, now: i64) -> (r: Result<
        String,
        AuthError,
    >)
        requires
            self.wf(),
            user_id >= 0,
        ensures
            r is Ok <==> now + self.ttl_seconds <= i64::MAX,
            r matches Ok(t) ==> now + self.ttl_seconds <= i64::MAX && t@ == token_of(
                dec_digits(user_id as nat),
                username@,
                (now + self.ttl_seconds) as i64,
                now,
                self.secret@,
            ),
            r matches Err(e) ==> e == AuthError::Internal,
    {
        if now > i64::MAX - self.ttl_seconds {
            return Err(AuthError::Internal);
        }
        let exp = now + self.ttl_seconds;
        let sub = crate::numeric::i64_to_dec_string(user_id);
        jwt_encode(sub.as_str(), username, exp, now, &self.secret)
    }

    /// Issues a token using the current clock reading as `iat`.
    pub fn generate_token(&self, user_id: i64, username: &str) -> (r: Result<String, AuthError>)
        requires
            self.wf(),
            user_id >= 0,
        ensures
            r matches Ok(t) ==> exists|now: i64, exp: i64|
                exp == now + self.ttl_seconds && t@ == #[trigger] token_of(
                    dec_digits(user_id as nat),
                    username@,
                    exp,
                    now,
                    self.secret@,
                ),
            r matches Err(e) ==> e == AuthError::Internal,
    {
        let now = crate::clock::current_timestamp();
        self.generate_token_at(user_id, username, now)
    }

    /// Checks signature and expiry of a token against the given clock
    /// reading; no leeway is granted, and a token is valid strictly before
    /// its expiry instant.
    pub fn verify_token_at(&self, token: &str, now: i64) -> (r: Result<Claims, AuthError>)
        ensures
            verify_token_post(self.secret@, token@, now, r),
    {
        match jwt_decode(token, &self.secret) {
            Ok(c) => {
                if c.exp > now {
                    Ok(c)
                } else {
                    Err(AuthError::Unauthorized)
                }
            },
            Err(e) => Err(e),
        }
    }

    /// Checks signature and expiry of a token against the current clock.
    pub fn verify_token(&self, token: &str) -> (r: Result<Claims, AuthError>)
        ensures
            forall|sub: Seq<char>, username: Seq<char>, exp: i64, iat: i64|
                token@ == token_of(sub, username, exp, iat, self.secret@) ==> (r matches Ok(c)
                    ==> c.sub@ == sub && c.username@ == username && c.exp == exp && c.iat == iat),
            r matches Err(e) ==> e == AuthError::Unauthorized,
    {
        let now = crate::clock::current_timestamp();
        self.verify_token_at(token, now)
    }
}

/// Law: a token issued for given claims is accepted, with exactly those
/// claims, by any verification whose clock reads before the expiry, and is
/// rejected as unauthorized by any verification whose clock reads at or
/// after the expiry.
pub proof fn lemma_token_lifecycle(
    sub: Seq<char>,
    username: Seq<char>,
    exp: i64,
    iat: i64,
    secret: Seq<char>,
    now: i64,
    r: Result<Claims, AuthError>,
)
    requires
        verify_token_post(secret, token_of(sub, username, exp, iat, secret), now, r),
    ensures
        now < exp ==> {
            &&& r matches Ok(c)
            &&& c.sub@ == sub
            &&& c.username@ == username
            &&& c.exp == exp
            &&& c.iat == iat
        },
        now >= exp ==> (r matches Err(e) && e == AuthError::Unauthorized),
{
}

} // verus!
