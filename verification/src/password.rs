//! Credential codec: salted, memory-hard password hashing into a
//! self-describing PHC string, and constant-time verification against it.
//!
//! Hashing draws a fresh random salt on every call, so two hashes of the
//! same password differ; the salt travels inside the encoded string, so
//! verification needs no external salt storage.

use vstd::prelude::*;

use argon2::password_hash::{PasswordHasher, PasswordVerifier};

verus! {

/// Whether Argon2 verification accepts `password` against the PHC string
/// `hash`. Verification recomputes the digest from the parameters and salt
/// embedded in `hash`, so the outcome is a function of the two strings alone;
/// a string that is not a well-formed PHC string is accepted for no password.
pub uninterp spec fn verifies(password: Seq<char>, hash: Seq<char>) -> bool;

/// Relies on `argon2::Argon2::hash_password` (via the `PasswordHasher`
/// trait) and the PHC string rendering: hashing with a fresh random salt
/// yields a string that `verify_password` accepts for the hashed password,
/// as the crate's own usage example asserts.
#[verifier::external_body]
pub(crate) fn hash_password(password: &str) -> (r: Option<String>)
    ensures
        r matches Some(h) ==> verifies(password@, h@),
{
    match argon2::Argon2::default().hash_password(password.as_bytes()) {
        Ok(h) => Some(h.to_string()),
        Err(_) => None,
    }
}

/// Relies on `argon2::Argon2::verify_password` for `str` hashes: the outcome
/// is deterministic in the password and the PHC string, and a malformed PHC
/// string is rejected as an error, never accepted.
#[verifier::external_body]
pub(crate) fn check_password(password: &str, hash: &str) -> (r: bool)
    ensures
        r == verifies(password@, hash@),
{
    argon2::Argon2::default().verify_password(password.as_bytes(), hash).is_ok()
}

} // verus!
