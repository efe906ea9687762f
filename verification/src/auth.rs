//! Authentication domain interfaces.
//!
//! Traits for the external collaborators — user persistence, password
//! hashing, and token issuance. Implementations live outside the verified
//! core; each method's contract states no more than the interface's
//! documented error taxonomy, which callers in the use cases rely on.

use vstd::prelude::*;

use crate::error::AuthError;
use crate::user::{HashedPassword, User};

verus! {

/// Repository interface for user persistence.
pub trait UserRepository {
    /// Find a user by identifier. Fails only with UserNotFound when no such
    /// user exists, or Internal on a storage fault.
    fn find_by_id(&self, id: u128) -> (r: Result<User, AuthError>)
        ensures
            r matches Err(e) ==> e is UserNotFound || e is Internal,
    ;

    /// Find a user by email address. Fails only with UserNotFound when no
    /// such user exists, or Internal on a storage fault.
    fn find_by_email(&self, email: &str) -> (r: Result<User, AuthError>)
        ensures
            r matches Err(e) ==> e is UserNotFound || e is Internal,
    ;

    /// Whether a user with the given email exists. Fails only with Internal
    /// on a storage fault.
    fn exists_by_email(&self, email: &str) -> (r: Result<bool, AuthError>)
        ensures
            r matches Err(e) ==> e is Internal,
    ;

    /// Store a new user and return the stored row, which carries the given
    /// user's identity fields. Fails only with UserAlreadyExists when the
    /// email is taken, or Internal on a storage fault.
    fn create(&self, user: &User) -> (r: Result<User, AuthError>)
        ensures
            r matches Err(e) ==> e is UserAlreadyExists || e is Internal,
            r matches Ok(u) ==> {
                &&& u.spec_id() == user.spec_id()
                &&& u.spec_email()@ == user.spec_email()@
                &&& crate::user::opt_str_view(u.spec_display_name()) == crate::user::opt_str_view(
                    user.spec_display_name(),
                )
                &&& u.spec_is_active() == user.spec_is_active()
            },
    ;

    /// Update an existing user and return the stored row. Fails only with
    /// UserNotFound when no such user exists, or Internal on a storage
    /// fault.
    fn update(&self, user: &User) -> (r: Result<User, AuthError>)
        ensures
            r matches Err(e) ==> e is UserNotFound || e is Internal,
    ;
}

/// Service interface for password hashing.
pub trait PasswordHasher {
    /// Hash a plain-text password. Fails only with Internal.
    fn hash(&self, plain_password: &str) -> (r: Result<HashedPassword, AuthError>)
        ensures
            r matches Err(e) ==> e is Internal,
    ;

    /// Whether a plain-text password matches a hash: Ok(true) on a match,
    /// Ok(false) on a mismatch. Fails only with Internal.
    fn verify(&self, plain_password: &str, hashed: &HashedPassword) -> (r: Result<
        bool,
        AuthError,
    >)
        ensures
            r matches Err(e) ==> e is Internal,
    ;
}

/// Data extracted from a validated token.
#[derive(Debug, Clone)]
pub struct TokenData {
    /// Subject: the user's 128-bit UUID value.
    pub user_id: u128,
    /// The user's email.
    pub email: String,
}

impl TokenData {
    /// A field-equal copy.
    pub fn duplicate(&self) -> (r: TokenData)
        ensures
            r.user_id == self.user_id,
            r.email@ == self.email@,
    {
        TokenData { user_id: self.user_id, email: self.email.clone() }
    }
}

/// Service interface for token operations.
pub trait TokenService {
    /// Create a signed token for a user. Fails only with Internal.
    fn create_token(&self, user: &User) -> (r: Result<String, AuthError>)
        ensures
            r matches Err(e) ==> e is Internal,
    ;

    /// Validate a token and extract its data. Fails only with InvalidToken
    /// when the token is malformed or wrongly signed, TokenExpired when it
    /// is past expiry, or Internal.
    fn validate_token(&self, token: &str) -> (r: Result<TokenData, AuthError>)
        ensures
            r matches Err(e) ==> e is InvalidToken || e is TokenExpired || e is Internal,
    ;
}

} // verus!
