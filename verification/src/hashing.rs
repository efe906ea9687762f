//! Argon2 implementation of the password hashing collaborator.
//!
//! The algorithm itself is the outside crate's work; what is verified here
//! is the handling around it: a fresh hash verifies against its own
//! password, a mismatch is an answer and not an error, and every failure
//! surfaces as an Internal domain error.

use vstd::prelude::*;
use vstd::string::StringExecFns;

use argon2::password_hash::PasswordHasher as Argon2Hasher;
use argon2::password_hash::PasswordVerifier as Argon2Verifier;

use crate::auth::PasswordHasher;
use crate::error::AuthError;
use crate::user::HashedPassword;

verus! {

/// Whether `plain` matches the PHC-encoded `hash` under the password
/// hashing scheme: a function of the two strings alone.
pub uninterp spec fn argon2_matches(plain: Seq<char>, hash: Seq<char>) -> bool;

/// Outcome of one password verification against a stored hash.
enum VerifyOutcome {
    /// The password matches the hash.
    Match,
    /// The password does not match the hash.
    Mismatch,
    /// The hash could not be checked, with detail.
    Failure(String),
}

/// Relies on argon2::Argon2::hash_password with the default parameters and
/// a fresh random salt: a success is a PHC string that verifies against
/// the hashed password.
#[verifier::external_body]
fn argon2_hash(plain: &str) -> (r: Result<String, String>)
    ensures
        r matches Ok(h) ==> argon2_matches(plain@, h@),
{
    match argon2::Argon2::default().hash_password(plain.as_bytes()) {
        Ok(hash) => Ok(hash.to_string()),
        Err(e) => Err(format!("{}", e)),
    }
}

/// Relies on argon2::Argon2::verify_password: it accepts exactly a
/// password matching the PHC string, reports a mismatch as a distinct
/// error, and any other failure is carried out as text.
#[verifier::external_body]
fn argon2_verify(plain: &str, hash: &str) -> (r: VerifyOutcome)
    ensures
        r is Match ==> argon2_matches(plain@, hash@),
        r is Mismatch ==> !argon2_matches(plain@, hash@),
{
    match argon2::Argon2::default().verify_password(plain.as_bytes(), hash) {
        Ok(()) => VerifyOutcome::Match,
        Err(argon2::password_hash::Error::PasswordInvalid) => VerifyOutcome::Mismatch,
        Err(e) => VerifyOutcome::Failure(format!("{}", e)),
    }
}

/// Argon2 password hasher with the default configuration.
pub struct Argon2PasswordHasher {}

impl Argon2PasswordHasher {
    /// Create a hasher with the default configuration.
    pub fn new() -> Argon2PasswordHasher {
        Argon2PasswordHasher {  }
    }
}

impl Default for Argon2PasswordHasher {
    /// A hasher with the default configuration.
    fn default() -> Self {
        Self::new()
    }
}

impl PasswordHasher for Argon2PasswordHasher {
    /// Hash a password with a fresh random salt. A successful result
    /// verifies against the hashed password; a failure surfaces as
    /// Internal.
    fn hash(&self, plain_password: &str) -> (r: Result<HashedPassword, AuthError>)
        ensures
            r matches Ok(h) ==> argon2_matches(plain_password@, h@),
    {
        match argon2_hash(plain_password) {
            Ok(h) => Ok(HashedPassword::from_hash(h)),
            Err(msg) => Err(
                AuthError::Internal(
                    String::from_str("Failed to hash password: ").concat(msg.as_str()),
                ),
            ),
        }
    }

    /// Whether the password matches the stored hash: a mismatch is the
    /// answer false, never an error; a hash that cannot be checked
    /// surfaces as Internal.
    fn verify(&self, plain_password: &str, hashed: &HashedPassword) -> (r: Result<
        bool,
        AuthError,
    >)
        ensures
            r matches Ok(b) ==> b == argon2_matches(plain_password@, hashed@),
    {
        match argon2_verify(plain_password, hashed.as_str()) {
            VerifyOutcome::Match => Ok(true),
            VerifyOutcome::Mismatch => Ok(false),
            VerifyOutcome::Failure(msg) => Err(
                AuthError::Internal(
                    String::from_str("Password verification error: ").concat(msg.as_str()),
                ),
            ),
        }
    }
}

} // verus!
