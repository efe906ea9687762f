//! Domain-level authentication errors.
//!
//! These represent business rule violations and domain failures,
//! independent of any transport or storage concern.

use vstd::prelude::*;

verus! {

/// Domain-level authentication errors.
#[derive(Clone, Debug, PartialEq, Eq)]
pub enum AuthError {
    /// A user with the given email already exists.
    UserAlreadyExists,
    /// The user was not found.
    UserNotFound,
    /// The credentials provided do not match any active account.
    InvalidCredentials,
    /// The token is malformed or its signature is wrong.
    InvalidToken,
    /// The token has expired.
    TokenExpired,
    /// The email format is invalid.
    InvalidEmail,
    /// The password does not meet the minimum requirements.
    WeakPassword,
    /// The user account is inactive.
    AccountInactive,
    /// An internal failure, with detail.
    Internal(String),
}

/// The human-readable description of each error.
pub open spec fn spec_message(e: AuthError) -> Seq<char> {
    match e {
        AuthError::UserAlreadyExists => "User with this email already exists"@,
        AuthError::UserNotFound => "User not found"@,
        AuthError::InvalidCredentials => "Invalid email or password"@,
        AuthError::InvalidToken => "Invalid or malformed token"@,
        AuthError::TokenExpired => "Token has expired"@,
        AuthError::InvalidEmail => "Invalid email format"@,
        AuthError::WeakPassword => "Password does not meet minimum requirements"@,
        AuthError::AccountInactive => "User account is inactive"@,
        AuthError::Internal(msg) => "Internal error: "@ + msg@,
    }
}

impl AuthError {
    /// The human-readable description of the error.
    pub fn message(&self) -> (r: String)
        ensures
            r@ == spec_message(*self),
    {
        match self {
            AuthError::UserAlreadyExists => String::from_str("User with this email already exists"),
            AuthError::UserNotFound => String::from_str("User not found"),
            AuthError::InvalidCredentials => String::from_str("Invalid email or password"),
            AuthError::InvalidToken => String::from_str("Invalid or malformed token"),
            AuthError::TokenExpired => String::from_str("Token has expired"),
            AuthError::InvalidEmail => String::from_str("Invalid email format"),
            AuthError::WeakPassword => String::from_str("Password does not meet minimum requirements"),
            AuthError::AccountInactive => String::from_str("User account is inactive"),
            AuthError::Internal(msg) => String::from_str("Internal error: ").concat(msg.as_str()),
        }
    }
}

} // verus!
