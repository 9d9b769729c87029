//! Credential hashing: a fresh random salt and a memory-hard hash per
//! call, and verification that re-derives from the salt embedded in the
//! stored hash string.

use vstd::prelude::*;

use argon2::{PasswordHasher, PasswordVerifier};

verus! {

/// Whether this password re-derives, with the salt and parameters
/// embedded in this hash string, to the digest the string carries.
/// Names the outcome of argon2's parse-and-verify, a deterministic
/// function of the two arguments alone; a malformed hash string never
/// matches.
pub uninterp spec fn password_matches(password: Seq<char>, hash: Seq<char>) -> bool;

/// Whether this string parses as a PHC hash string: the outcome of
/// phc's `PasswordHash::new`, a deterministic function of the string
/// alone. A stored hash that does not parse is a configuration fault,
/// not an authentication outcome.
pub uninterp spec fn parseable_hash(hash: Seq<char>) -> bool;

/// Relies on phc's `PasswordHash::new`: whether the string parses as a
/// PHC hash string.
#[verifier::external_body]
pub(crate) fn is_parseable_hash(hash: &str) -> (r: bool)
    ensures
        r == parseable_hash(hash@),
{
    argon2::PasswordHash::new(hash).is_ok()
}

/// Relies on argon2's `Argon2::hash_password` (default parameters, a
/// fresh random salt per call): on success it returns a well-formed PHC
/// string that verifies against the same password, as the crate
/// documents of the `hash_password` / `verify_password` pair. Two calls
/// on one password may differ, the salt being random, so nothing more
/// is stated.
#[verifier::external_body]
pub fn hash_password(password: &str) -> (r: Option<String>)
    ensures
        r matches Some(h) ==> password_matches(password@, h@) && parseable_hash(h@),
{
    match argon2::Argon2::default().hash_password(password.as_bytes()) {
        Ok(h) => Some(h.to_string()),
        Err(_) => None,
    }
}

/// Relies on argon2's `PasswordVerifier<str>::verify_password`: it
/// parses the PHC string and re-derives the digest from the password
/// and the embedded salt and parameters; a parse failure or a mismatch
/// is reported as an error, here a `false`.
#[verifier::external_body]
pub fn verify_password(password: &str, hash: &str) -> (r: bool)
    ensures
        r == password_matches(password@, hash@),
{
    argon2::Argon2::default().verify_password(password.as_bytes(), hash).is_ok()
}

} // verus!
