//! Password credential engine: salted, memory-hard password hashing and
//! verification for the self-hosted email/password flow.
use vstd::prelude::*;

use argon2::password_hash::PasswordHash;
use argon2::password_hash::PasswordHasher;
use argon2::password_hash::PasswordVerifier;
use argon2::password_hash::SaltString;

verus! {

/// Internal KDF failure while hashing a password. Treated as fatal and
/// unexpected; it never depends on the password's value being "wrong".
#[derive(Clone, Copy, Debug, PartialEq, Eq, Structural)]
pub struct HashError;

/// Whether `password` verifies against the stored hash string `hash`:
/// parsing the hash and checking the password are deterministic in the two
/// strings, since the salt and the cost parameters are embedded in the hash.
/// A malformed hash matches nothing. Relied upon through the two functions
/// below; stated nowhere else.
pub uninterp spec fn spec_password_matches(password: Seq<char>, hash: Seq<char>) -> bool;

/// Relies on argon2's `hash_password` with a fresh random salt per call and
/// the default cost parameters: the salt makes the resulting string
/// nondeterministic, but every hash it returns verifies against the password
/// it was derived from.
#[verifier::external_body]
fn argon2_hash(password: &str) -> (r: Result<String, HashError>)
    ensures
        r matches Ok(h) ==> spec_password_matches(password@, h@),
{
    let salt = SaltString::generate(&mut argon2::password_hash::rand_core::OsRng);
    match argon2::Argon2::default().hash_password(password.as_bytes(), &salt) {
        Ok(h) => Ok(h.to_string()),
        Err(_) => Err(HashError),
    }
}

/// Relies on `PasswordHash::new` and argon2's `verify_password`: the outcome
/// is a function of the password and the stored hash alone, and a hash that
/// does not parse is reported as a mismatch, indistinguishable from a wrong
/// password.
#[verifier::external_body]
fn argon2_verify(password: &str, hash: &str) -> (r: bool)
    ensures
        r == spec_password_matches(password@, hash@),
{
    match PasswordHash::new(hash) {
        Ok(parsed) => argon2::Argon2::default().verify_password(password.as_bytes(), &parsed)
            .is_ok(),
        Err(_) => false,
    }
}

/// Derives a fresh salted hash for `password`. On success the returned hash
/// verifies against `password`; it fails only on internal KDF failure.
pub fn hash_password(password: &str) -> (r: Result<String, HashError>)
    ensures
        r matches Ok(h) ==> spec_password_matches(password@, h@),
{
    argon2_hash(password)
}

/// Checks `password` against a stored hash. Returns `false` — and never
/// fails otherwise — for both a mismatch and a malformed stored hash, so the
/// two cases cannot be told apart by a caller.
pub fn verify_password(password: &str, password_hash: &str) -> (r: bool)
    ensures
        r == spec_password_matches(password@, password_hash@),
{
    argon2_verify(password, password_hash)
}

} // verus!
