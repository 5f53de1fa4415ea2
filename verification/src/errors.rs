use vstd::prelude::*;

verus! {

/// The failure kinds a service operation can report.
///
/// Every fallible operation of the crate returns one of these; the
/// boundary translates them to a transport status and message.
#[derive(Clone, Copy, Debug, PartialEq, Eq, Structural)]
pub enum AuthError {
    /// The referenced record does not exist.
    NotFound,
    /// Bad credentials, an invalid or expired token, or a bad one-time code.
    Unauthorized,
    /// A record with the same unique key already exists.
    Conflict,
    /// The caller lacks the privilege the operation demands.
    Forbidden,
    /// A malformed identifier or request value.
    InvalidInput,
    /// A failure inside a delegated component (hashing, signing, storage).
    Internal,
}

impl AuthError {
    /// A short caller-facing description; internal failures stay opaque.
    pub fn message(&self) -> (r: &'static str)
        ensures
            r@ == self.message_spec(),
    {
        proof {
            reveal_strlit("not found");
            reveal_strlit("unauthorized");
            reveal_strlit("conflict");
            reveal_strlit("forbidden");
            reveal_strlit("invalid input");
            reveal_strlit("internal error");
        }
        match self {
            AuthError::NotFound => "not found",
            AuthError::Unauthorized => "unauthorized",
            AuthError::Conflict => "conflict",
            AuthError::Forbidden => "forbidden",
            AuthError::InvalidInput => "invalid input",
            AuthError::Internal => "internal error",
        }
    }

    /// What `message` returns for each variant.
    pub open spec fn message_spec(&self) -> Seq<char> {
        match self {
            AuthError::NotFound => "not found"@,
            AuthError::Unauthorized => "unauthorized"@,
            AuthError::Conflict => "conflict"@,
            AuthError::Forbidden => "forbidden"@,
            AuthError::InvalidInput => "invalid input"@,
            AuthError::Internal => "internal error"@,
        }
    }
}

} // verus!
