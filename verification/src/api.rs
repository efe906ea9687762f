//! Service-side interface pieces: the request and response shapes of the
//! credential service, and the translation of domain errors into the wire
//! vocabularies — a failure category for the RPC adapter, a status and a
//! tag for the HTTP adapter.

use vstd::prelude::*;
use vstd::string::StringExecFns;

use crate::classifier::ErrorCategory;
use crate::error::{spec_message, AuthError};

verus! {

/// The failure category the RPC adapter reports for a domain error.
pub open spec fn spec_grpc_category(e: AuthError) -> ErrorCategory {
    match e {
        AuthError::UserAlreadyExists => ErrorCategory::AlreadyExists,
        AuthError::UserNotFound => ErrorCategory::NotFound,
        AuthError::InvalidCredentials => ErrorCategory::Unauthenticated,
        AuthError::InvalidToken => ErrorCategory::Unauthenticated,
        AuthError::TokenExpired => ErrorCategory::Unauthenticated,
        AuthError::InvalidEmail => ErrorCategory::InvalidArgument,
        AuthError::WeakPassword => ErrorCategory::InvalidArgument,
        AuthError::AccountInactive => ErrorCategory::PermissionDenied,
        AuthError::Internal(_) => ErrorCategory::Internal,
    }
}

/// Map a domain error to the failure category the RPC adapter reports.
/// None of the domain errors maps to a transient category, so a domain
/// rejection can never trip a well-behaved caller's circuit breaker —
/// except a genuine Internal failure, which must.
pub fn map_auth_error(e: &AuthError) -> (r: ErrorCategory)
    ensures
        r == spec_grpc_category(*e),
        crate::classifier::spec_transient(r) <==> e is Internal,
{
    match e {
        AuthError::UserAlreadyExists => ErrorCategory::AlreadyExists,
        AuthError::UserNotFound => ErrorCategory::NotFound,
        AuthError::InvalidCredentials => ErrorCategory::Unauthenticated,
        AuthError::InvalidToken => ErrorCategory::Unauthenticated,
        AuthError::TokenExpired => ErrorCategory::Unauthenticated,
        AuthError::InvalidEmail => ErrorCategory::InvalidArgument,
        AuthError::WeakPassword => ErrorCategory::InvalidArgument,
        AuthError::AccountInactive => ErrorCategory::PermissionDenied,
        AuthError::Internal(_) => ErrorCategory::Internal,
    }
}

/// The HTTP status the service returns for a domain error.
pub open spec fn spec_http_status(e: AuthError) -> u16 {
    match e {
        AuthError::UserAlreadyExists => 409,
        AuthError::UserNotFound => 404,
        AuthError::InvalidCredentials => 401,
        AuthError::InvalidToken => 401,
        AuthError::TokenExpired => 401,
        AuthError::InvalidEmail => 400,
        AuthError::WeakPassword => 400,
        AuthError::AccountInactive => 403,
        AuthError::Internal(_) => 500,
    }
}

/// The short machine-readable tag the service returns for a domain error.
pub open spec fn spec_error_tag(e: AuthError) -> Seq<char> {
    match e {
        AuthError::UserAlreadyExists => "user_exists"@,
        AuthError::UserNotFound => "user_not_found"@,
        AuthError::InvalidCredentials => "invalid_credentials"@,
        AuthError::InvalidToken => "invalid_token"@,
        AuthError::TokenExpired => "token_expired"@,
        AuthError::InvalidEmail => "invalid_email"@,
        AuthError::WeakPassword => "weak_password"@,
        AuthError::AccountInactive => "account_inactive"@,
        AuthError::Internal(_) => "internal_error"@,
    }
}

/// Map a domain error to the HTTP status the service returns.
pub fn http_status(e: &AuthError) -> (r: u16)
    ensures
        r == spec_http_status(*e),
{
    match e {
        AuthError::UserAlreadyExists => 409,
        AuthError::UserNotFound => 404,
        AuthError::InvalidCredentials => 401,
        AuthError::InvalidToken => 401,
        AuthError::TokenExpired => 401,
        AuthError::InvalidEmail => 400,
        AuthError::WeakPassword => 400,
        AuthError::AccountInactive => 403,
        AuthError::Internal(_) => 500,
    }
}

/// Error response body.
pub struct ErrorResponse {
    /// Short machine-readable error kind.
    pub error: String,
    /// Human-readable message.
    pub message: String,
}

/// Build the error body the HTTP adapter serializes: the error's tag and
/// its human-readable message.
pub fn error_response(e: &AuthError) -> (r: ErrorResponse)
    ensures
        r.error@ == spec_error_tag(*e),
        r.message@ == spec_message(*e),
{
    let tag: &'static str = match e {
        AuthError::UserAlreadyExists => "user_exists",
        AuthError::UserNotFound => "user_not_found",
        AuthError::InvalidCredentials => "invalid_credentials",
        AuthError::InvalidToken => "invalid_token",
        AuthError::TokenExpired => "token_expired",
        AuthError::InvalidEmail => "invalid_email",
        AuthError::WeakPassword => "weak_password",
        AuthError::AccountInactive => "account_inactive",
        AuthError::Internal(_) => "internal_error",
    };
    ErrorResponse { error: String::from_str(tag), message: e.message() }
}

/// Request body for user registration.
pub struct RegisterRequest {
    /// Email address.
    pub email: String,
    /// Plain-text password.
    pub password: String,
    /// Optional display name.
    pub display_name: Option<String>,
}

/// Request body for user login.
pub struct LoginRequest {
    /// Email address.
    pub email: String,
    /// Plain-text password.
    pub password: String,
}

/// Response for successful registration.
pub struct RegisterResponse {
    /// The new user's identifier, in text form.
    pub user_id: String,
    /// The stored, normalized email.
    pub email: String,
    /// The stored display name.
    pub display_name: Option<String>,
}

/// Response for successful login.
pub struct LoginResponse {
    /// The signed session token.
    pub token: String,
    /// The user's identifier, in text form.
    pub user_id: String,
    /// The user's email.
    pub email: String,
    /// The user's display name.
    pub display_name: Option<String>,
}

/// Response for current user info.
pub struct MeResponse {
    /// The user's identifier, in text form.
    pub user_id: String,
    /// The user's email.
    pub email: String,
    /// The user's display name.
    pub display_name: Option<String>,
    /// Whether the account is active.
    pub is_active: bool,
}

} // verus!
