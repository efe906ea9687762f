use auth_service::email::Email;
use auth_service::error::AuthError;
use auth_service::user::{HashedPassword, User, UserId};



#[test]
fn test_email_valid() {
    assert!(Email::new("test@example.com").is_ok());
    assert!(Email::new("user.name@domain.co.uk").is_ok());
}

#[test]
fn test_email_invalid() {
    assert!(Email::new("").is_err());
    assert!(Email::new("invalid").is_err());
    assert!(Email::new("@example.com").is_err());
    assert!(Email::new("test@").is_err());
    assert!(Email::new("test@domain").is_err());
}

#[test]
fn test_email_normalized() {
    let email = Email::new("  TEST@EXAMPLE.COM  ").unwrap();
    assert_eq!(email.as_str(), "test@example.com");
}

#[test]
fn test_email_rejects_double_at() {
    assert!(Email::new("a@b@c.com").is_err());
}

#[test]
fn test_email_error_kind() {
    assert!(matches!(Email::new("invalid"), Err(AuthError::InvalidEmail)));
}

#[test]
fn user_test_user_creation() {
    let email = Email::new("test@example.com").unwrap();
    let password = HashedPassword::from_hash("hashed".to_string());
    let user = User::new(email, password, Some("Test User".to_string()));

    assert!(user.is_active());
    assert_eq!(user.email().as_str(), "test@example.com");
    assert_eq!(user.display_name(), Some("Test User"));
}

#[test]
fn test_email_validation() {
    assert!(Email::new("valid@example.com").is_ok());
    assert!(Email::new("invalid").is_err());
    assert!(Email::new("").is_err());
}

#[test]
fn integration_test_test_user_creation() {
    let email = Email::new("test@example.com").unwrap();
    let password = HashedPassword::from_hash("hash".to_string());
    let user = User::new(email, password, Some("Test".to_string()));

    assert!(user.is_active());
    assert_eq!(user.email().as_str(), "test@example.com");
}

#[test]
fn test_auth_error_display() {
    assert_eq!(
        AuthError::InvalidCredentials.message(),
        "Invalid email or password"
    );
    assert_eq!(
        AuthError::UserAlreadyExists.message(),
        "User with this email already exists"
    );
}

#[test]
fn test_auth_error_internal_message() {
    assert_eq!(
        AuthError::Internal("pool exhausted".to_string()).message(),
        "Internal error: pool exhausted"
    );
}

#[test]
fn test_user_deactivate_activate() {
    let email = Email::new("test@example.com").unwrap();
    let password = HashedPassword::from_hash("hashed".to_string());
    let mut user = User::new(email, password, None);
    assert!(user.is_active());
    user.deactivate();
    assert!(!user.is_active());
    user.activate();
    assert!(user.is_active());
}

#[test]
fn test_user_from_persistence() {
    let user = User::from_persistence(
        7,
        "kept@example.com".to_string(),
        "stored-hash".to_string(),
        None,
        false,
        1_000,
        2_000,
    );
    assert_eq!(user.id().as_uuid(), 7);
    assert_eq!(user.email().as_str(), "kept@example.com");
    assert_eq!(user.hashed_password().as_str(), "stored-hash");
    assert_eq!(user.display_name(), None);
    assert!(!user.is_active());
    assert_eq!(user.created_at(), 1_000);
    assert_eq!(user.updated_at(), 2_000);
}

#[test]
fn test_user_id_round_trip() {
    let id = UserId::from_uuid(0x1234_5678_9abc_def0);
    assert_eq!(id.as_uuid(), 0x1234_5678_9abc_def0);
    let a = UserId::new();
    let b = UserId::new();
    // fresh random identifiers are distinct with overwhelming likelihood
    assert_ne!(a.as_uuid(), b.as_uuid());
}

#[test]
fn test_email_accepts_non_ascii() {
    let email = Email::new("\u{dc}SER@ex\u{e4}mple.com").unwrap();
    assert_eq!(email.as_str(), "\u{fc}ser@ex\u{e4}mple.com");
}
