//! An authenticated notification service: users register, log in for a
//! signed, time-bounded session token, and read or post announcements.
//! An optional second factor (time-based one-time codes with backup codes)
//! can be layered onto an account.
//!
//! The crate verifies the credential, token and second-factor logic and the
//! record-store transitions; password hashing, token signing and the
//! HMAC digest are performed by outside crates behind trusted wrappers.

pub mod clock;
pub mod errors;
pub mod laws;
pub mod notification;
pub mod numeric;
pub mod password;
pub mod service;
pub mod text;
pub mod token;
pub mod totp;
pub mod user;

pub use errors::AuthError;
