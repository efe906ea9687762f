//! Database seeding: create the initial administrator account if it does
//! not exist yet.

use vstd::prelude::*;
use vstd::string::StringExecFns;

use crate::auth::{PasswordHasher, UserRepository};
use crate::email::Email;
use crate::error::AuthError;
use crate::user::User;

verus! {

/// Seed data configuration.
pub struct SeedConfig {
    /// Email of the administrator account.
    pub admin_email: String,
    /// Initial administrator password.
    pub admin_password: String,
    /// Administrator display name.
    pub admin_display_name: String,
}

impl Default for SeedConfig {
    /// The stock administrator account.
    fn default() -> (r: Self)
        ensures
            r.admin_email@ == "admin@example.com"@,
            r.admin_password@ == "Admin123!"@,
            r.admin_display_name@ == "System Administrator"@,
    {
        SeedConfig {
            admin_email: String::from_str("admin@example.com"),
            admin_password: String::from_str("Admin123!"),
            admin_display_name: String::from_str("System Administrator"),
        }
    }
}

/// Seed the initial administrator: if no user with the configured email
/// exists, validate the email, hash the password, and store the account.
/// An already-present administrator is not an error.
pub fn seed_users<R: UserRepository, H: PasswordHasher>(
    repo: &R,
    hasher: &H,
    config: &SeedConfig,
) -> (r: Result<(), AuthError>)
    ensures
        r matches Err(e) ==> (e is InvalidEmail || e is UserAlreadyExists || e is Internal),
{
    // Skip when the administrator already exists.
    match repo.exists_by_email(config.admin_email.as_str()) {
        Ok(true) => {
            return Ok(());
        },
        Ok(false) => (),
        Err(e) => {
            return Err(e);
        },
    }

    let email = match Email::new(config.admin_email.as_str()) {
        Ok(e) => e,
        Err(e) => {
            return Err(e);
        },
    };
    let hashed_password = match hasher.hash(config.admin_password.as_str()) {
        Ok(h) => h,
        Err(e) => {
            return Err(e);
        },
    };
    let display_name = config.admin_display_name.clone();
    let admin_user = User::new(email, hashed_password, Some(display_name));
    match repo.create(&admin_user) {
        Ok(_) => Ok(()),
        Err(e) => Err(e),
    }
}

} // verus!
