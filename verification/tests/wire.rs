use std::cell::RefCell;

use auth_service::api::{error_response, http_status};
use auth_service::auth::{PasswordHasher, UserRepository};
use auth_service::classifier::ErrorCategory;
use auth_service::error::AuthError;
use auth_service::gateway::{grpc_error_code, grpc_to_http_status};
use auth_service::seed::{seed_users, SeedConfig};
use auth_service::user::{HashedPassword, User};

#[test]
fn test_http_status_per_error() {
    assert_eq!(http_status(&AuthError::UserAlreadyExists), 409);
    assert_eq!(http_status(&AuthError::UserNotFound), 404);
    assert_eq!(http_status(&AuthError::InvalidCredentials), 401);
    assert_eq!(http_status(&AuthError::InvalidToken), 401);
    assert_eq!(http_status(&AuthError::TokenExpired), 401);
    assert_eq!(http_status(&AuthError::InvalidEmail), 400);
    assert_eq!(http_status(&AuthError::WeakPassword), 400);
    assert_eq!(http_status(&AuthError::AccountInactive), 403);
    assert_eq!(http_status(&AuthError::Internal("x".to_string())), 500);
}

#[test]
fn test_error_response_body() {
    let body = error_response(&AuthError::WeakPassword);
    assert_eq!(body.error, "weak_password");
    assert_eq!(body.message, "Password does not meet minimum requirements");
}

#[test]
fn test_gateway_status_per_category() {
    assert_eq!(grpc_to_http_status(&ErrorCategory::InvalidArgument), 400);
    assert_eq!(grpc_to_http_status(&ErrorCategory::NotFound), 404);
    assert_eq!(grpc_to_http_status(&ErrorCategory::AlreadyExists), 409);
    assert_eq!(grpc_to_http_status(&ErrorCategory::PermissionDenied), 403);
    assert_eq!(grpc_to_http_status(&ErrorCategory::Unauthenticated), 401);
    assert_eq!(grpc_to_http_status(&ErrorCategory::Unavailable), 503);
    assert_eq!(grpc_to_http_status(&ErrorCategory::DeadlineExceeded), 504);
    assert_eq!(grpc_to_http_status(&ErrorCategory::Internal), 500);
    assert_eq!(grpc_to_http_status(&ErrorCategory::Unknown), 500);
}

#[test]
fn test_gateway_error_codes() {
    assert_eq!(
        grpc_error_code(&ErrorCategory::InvalidArgument),
        "BAD_USER_INPUT"
    );
    assert_eq!(grpc_error_code(&ErrorCategory::NotFound), "NOT_FOUND");
    assert_eq!(
        grpc_error_code(&ErrorCategory::AlreadyExists),
        "ALREADY_EXISTS"
    );
    assert_eq!(grpc_error_code(&ErrorCategory::PermissionDenied), "FORBIDDEN");
    assert_eq!(
        grpc_error_code(&ErrorCategory::Unauthenticated),
        "UNAUTHENTICATED"
    );
    assert_eq!(
        grpc_error_code(&ErrorCategory::Unavailable),
        "SERVICE_UNAVAILABLE"
    );
    assert_eq!(
        grpc_error_code(&ErrorCategory::Internal),
        "INTERNAL_SERVER_ERROR"
    );
}

// In-memory repository for the seeding tests
struct SeedRepo {
    users: RefCell<Vec<User>>,
}

impl UserRepository for SeedRepo {
    fn find_by_id(&self, id: u128) -> Result<User, AuthError> {
        self.users
            .borrow()
            .iter()
            .find(|u| u.id().as_uuid() == id)
            .cloned()
            .ok_or(AuthError::UserNotFound)
    }

    fn find_by_email(&self, email: &str) -> Result<User, AuthError> {
        self.users
            .borrow()
            .iter()
            .find(|u| u.email().as_str() == email)
            .cloned()
            .ok_or(AuthError::UserNotFound)
    }

    fn exists_by_email(&self, email: &str) -> Result<bool, AuthError> {
        Ok(self
            .users
            .borrow()
            .iter()
            .any(|u| u.email().as_str() == email))
    }

    fn create(&self, user: &User) -> Result<User, AuthError> {
        if self
            .users
            .borrow()
            .iter()
            .any(|u| u.email().as_str() == user.email().as_str())
        {
            return Err(AuthError::UserAlreadyExists);
        }
        self.users.borrow_mut().push(user.clone());
        Ok(user.clone())
    }

    fn update(&self, _user: &User) -> Result<User, AuthError> {
        Err(AuthError::Internal("Not implemented".to_string()))
    }
}

struct PlainHasher;

impl PasswordHasher for PlainHasher {
    fn hash(&self, plain: &str) -> Result<HashedPassword, AuthError> {
        Ok(HashedPassword::from_hash(format!("hashed_{}", plain)))
    }

    fn verify(&self, plain: &str, hashed: &HashedPassword) -> Result<bool, AuthError> {
        Ok(hashed.as_str() == format!("hashed_{}", plain))
    }
}

#[test]
fn test_seed_creates_admin_once() {
    let repo = SeedRepo {
        users: RefCell::new(Vec::new()),
    };
    let hasher = PlainHasher;
    let config = SeedConfig::default();

    seed_users(&repo, &hasher, &config).unwrap();
    assert_eq!(repo.users.borrow().len(), 1);
    assert_eq!(repo.users.borrow()[0].email().as_str(), "admin@example.com");

    // seeding again finds the administrator and changes nothing
    seed_users(&repo, &hasher, &config).unwrap();
    assert_eq!(repo.users.borrow().len(), 1);
}

#[test]
fn test_seed_config_default_values() {
    let config = SeedConfig::default();
    assert_eq!(config.admin_email, "admin@example.com");
    assert_eq!(config.admin_password, "Admin123!");
    assert_eq!(config.admin_display_name, "System Administrator");
}
