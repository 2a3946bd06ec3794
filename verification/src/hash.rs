//! Password hashing capability.
//!
//! Argon2 is used as a black box: `hash(plain) -> digest` and
//! `verify(digest, plain) -> bool`. The digest is a PHC-formatted string
//! over a fresh random salt, so hashing the same password twice yields
//! different digests; what is stable, and what the contracts build on, is
//! whether a digest verifies against a password.

use vstd::prelude::*;
use argon2::PasswordHasher;
use argon2::PasswordVerifier;

use crate::errors::AppError;
use crate::errors::plain_message;

verus! {

/// Whether Argon2 verification of the PHC string `hash` against the
/// password `plain` succeeds. A function of the two strings alone: the PHC
/// string carries the salt and parameters that the check uses.
pub uninterp spec fn password_verifies(hash: Seq<char>, plain: Seq<char>) -> bool;

/// Relies on argon2's `PasswordHasher::hash_password`: the result is a
/// PHC-formatted string (these always begin with `'$'`) over a fresh random
/// salt, and verifying it against the hashed password succeeds.
#[verifier::external_body]
fn argon2_hash(plain: &str) -> (r: Result<String, ()>)
    ensures
        r matches Ok(h) ==> password_verifies(h@, plain@) && h@.len() > 0 && h@[0] == '$',
{
    match argon2::Argon2::default().hash_password(plain.as_bytes()) {
        Ok(h) => Ok(h.to_string()),
        Err(_) => Err(()),
    }
}

/// Relies on argon2's `PasswordVerifier::verify_password` (after parsing the
/// PHC string): the outcome is a function of digest and password alone.
#[verifier::external_body]
fn argon2_verify(hash: &str, plain: &str) -> (r: bool)
    ensures
        r == password_verifies(hash@, plain@),
{
    match argon2::PasswordHash::new(hash) {
        Ok(parsed) => argon2::Argon2::default().verify_password(plain.as_bytes(), &parsed).is_ok(),
        Err(_) => false,
    }
}

/// The hashing capability handed to the user service. Parameters are the
/// Argon2 defaults, the only configuration the backend uses.
pub struct Argon2Hasher {}

impl Argon2Hasher {
    /// Hashes a plaintext password into a PHC digest string.
    pub fn hash_password(&self, plain_text: &str) -> (r: Result<String, AppError>)
        ensures
            r matches Ok(h) ==> password_verifies(h@, plain_text@) && h@.len() > 0 && h@[0]
                == '$',
            r matches Err(e) ==> e is BadRequestError && e.spec_message().message@
                == "Failed to hash password"@,
    {
        match argon2_hash(plain_text) {
            Ok(h) => Ok(h),
            Err(_) => Err(
                AppError::BadRequestError(plain_message("Failed to hash password")),
            ),
        }
    }

    /// Checks a plaintext password against a stored digest. A digest that is
    /// not even a well-formed PHC string verifies against nothing.
    pub fn verify_password(&self, hashed_text: &str, plain_text: &str) -> (r: bool)
        ensures
            r == password_verifies(hashed_text@, plain_text@),
    {
        argon2_verify(hashed_text, plain_text)
    }
}

/// The default hasher.
pub fn get_argon2_default() -> (r: Argon2Hasher) {
    Argon2Hasher {  }
}

/// A stored digest is never the plaintext it was derived from: digests are
/// PHC strings and begin with `'$'`, so any plaintext that does not is
/// distinct from its own digest.
pub proof fn lemma_hash_is_not_plaintext(hash: Seq<char>, plain: Seq<char>)
    requires
        hash.len() > 0,
        hash[0] == '$',
        plain.len() == 0 || plain[0] != '$',
    ensures
        hash != plain,
{
    if hash == plain {
        assert(plain.len() > 0 && plain[0] == '$');
    }
}

} // verus!
