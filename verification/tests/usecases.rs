use auth_service::auth::{PasswordHasher, TokenData, TokenService, UserRepository};
use auth_service::error::AuthError;
use auth_service::login_user::{LoginUserCommand, LoginUserUseCase};
use auth_service::register_user::{RegisterUserCommand, RegisterUserUseCase};
use auth_service::session::get_session;
use auth_service::email::Email;
use auth_service::user::{HashedPassword, User};

// Mock repository holding at most one user
struct MockUserRepository {
    user: Option<User>,
}

impl UserRepository for MockUserRepository {
    fn find_by_id(&self, _id: u128) -> Result<User, AuthError> {
        self.user.clone().ok_or(AuthError::UserNotFound)
    }

    fn find_by_email(&self, email: &str) -> Result<User, AuthError> {
        match &self.user {
            Some(u) if u.email().as_str() == email => Ok(u.clone()),
            _ => Err(AuthError::UserNotFound),
        }
    }

    fn exists_by_email(&self, email: &str) -> Result<bool, AuthError> {
        Ok(self
            .user
            .as_ref()
            .map_or(false, |u| u.email().as_str() == email))
    }

    fn create(&self, _user: &User) -> Result<User, AuthError> {
        Err(AuthError::Internal("Not implemented".to_string()))
    }

    fn update(&self, _user: &User) -> Result<User, AuthError> {
        Err(AuthError::Internal("Not implemented".to_string()))
    }
}

// Mock password hasher that expects "correct_password"
struct MockPasswordHasher;

impl PasswordHasher for MockPasswordHasher {
    fn hash(&self, plain: &str) -> Result<HashedPassword, AuthError> {
        Ok(HashedPassword::from_hash(format!("hashed_{}", plain)))
    }

    fn verify(&self, plain: &str, _hashed: &HashedPassword) -> Result<bool, AuthError> {
        Ok(plain == "correct_password")
    }
}

// Mock token service
struct MockTokenService;

impl TokenService for MockTokenService {
    fn create_token(&self, _user: &User) -> Result<String, AuthError> {
        Ok("mock_token".to_string())
    }

    fn validate_token(&self, _token: &str) -> Result<TokenData, AuthError> {
        Err(AuthError::InvalidToken)
    }
}

fn create_test_user() -> User {
    let email = Email::new("test@example.com").unwrap();
    let password = HashedPassword::from_hash("hashed_correct_password".to_string());
    User::new(email, password, Some("Test".to_string()))
}

#[test]
fn test_login_success() {
    let repo = MockUserRepository {
        user: Some(create_test_user()),
    };
    let hasher = MockPasswordHasher;
    let token_service = MockTokenService;
    let use_case = LoginUserUseCase::new(&repo, &hasher, &token_service);

    let command = LoginUserCommand {
        email: "test@example.com".to_string(),
        password: "correct_password".to_string(),
    };

    let result = use_case.execute(command).unwrap();
    assert_eq!(result.token, "mock_token");
    assert_eq!(result.email, "test@example.com");
}

#[test]
fn test_login_wrong_password() {
    let repo = MockUserRepository {
        user: Some(create_test_user()),
    };
    let hasher = MockPasswordHasher;
    let token_service = MockTokenService;
    let use_case = LoginUserUseCase::new(&repo, &hasher, &token_service);

    let command = LoginUserCommand {
        email: "test@example.com".to_string(),
        password: "wrong_password".to_string(),
    };

    let result = use_case.execute(command);
    assert!(matches!(result, Err(AuthError::InvalidCredentials)));
}

#[test]
fn test_login_user_not_found() {
    let repo = MockUserRepository { user: None };
    let hasher = MockPasswordHasher;
    let token_service = MockTokenService;
    let use_case = LoginUserUseCase::new(&repo, &hasher, &token_service);

    let command = LoginUserCommand {
        email: "nonexistent@example.com".to_string(),
        password: "password".to_string(),
    };

    let result = use_case.execute(command);
    assert!(matches!(result, Err(AuthError::InvalidCredentials)));
}

#[test]
fn test_login_inactive_account() {
    let mut user = create_test_user();
    user.deactivate();
    let repo = MockUserRepository { user: Some(user) };
    let hasher = MockPasswordHasher;
    let token_service = MockTokenService;
    let use_case = LoginUserUseCase::new(&repo, &hasher, &token_service);

    let command = LoginUserCommand {
        email: "test@example.com".to_string(),
        password: "correct_password".to_string(),
    };

    let result = use_case.execute(command);
    assert!(matches!(result, Err(AuthError::AccountInactive)));
}

// Registration mock: remembers which emails are taken, echoes created rows
struct RegistrationRepository {
    existing_emails: Vec<String>,
}

impl UserRepository for RegistrationRepository {
    fn find_by_id(&self, _id: u128) -> Result<User, AuthError> {
        Err(AuthError::UserNotFound)
    }

    fn find_by_email(&self, email: &str) -> Result<User, AuthError> {
        if self.existing_emails.contains(&email.to_string()) {
            Ok(User::from_persistence(
                1,
                email.to_string(),
                "hash".to_string(),
                None,
                true,
                0,
                0,
            ))
        } else {
            Err(AuthError::UserNotFound)
        }
    }

    fn exists_by_email(&self, email: &str) -> Result<bool, AuthError> {
        Ok(self.existing_emails.contains(&email.to_lowercase()))
    }

    fn create(&self, user: &User) -> Result<User, AuthError> {
        Ok(User::from_persistence(
            user.id().as_uuid(),
            user.email().as_str().to_string(),
            user.hashed_password().as_str().to_string(),
            user.display_name().map(String::from),
            user.is_active(),
            user.created_at(),
            user.updated_at(),
        ))
    }

    fn update(&self, _user: &User) -> Result<User, AuthError> {
        Err(AuthError::Internal("Not implemented".to_string()))
    }
}

#[test]
fn test_register_success() {
    let repo = RegistrationRepository {
        existing_emails: vec![],
    };
    let hasher = MockPasswordHasher;
    let use_case = RegisterUserUseCase::new(&repo, &hasher);

    let command = RegisterUserCommand {
        email: "new@example.com".to_string(),
        password: "ValidPass123".to_string(),
        display_name: Some("New User".to_string()),
    };

    let result = use_case.execute(command).unwrap();
    assert_eq!(result.email, "new@example.com");
    assert_eq!(result.display_name, Some("New User".to_string()));
}

#[test]
fn test_register_email_exists() {
    let repo = RegistrationRepository {
        existing_emails: vec!["existing@example.com".to_string()],
    };
    let hasher = MockPasswordHasher;
    let use_case = RegisterUserUseCase::new(&repo, &hasher);

    let command = RegisterUserCommand {
        email: "existing@example.com".to_string(),
        password: "ValidPass123".to_string(),
        display_name: None,
    };

    let result = use_case.execute(command);
    assert!(matches!(result, Err(AuthError::UserAlreadyExists)));
}

#[test]
fn test_register_weak_password() {
    let repo = RegistrationRepository {
        existing_emails: vec![],
    };
    let hasher = MockPasswordHasher;
    let use_case = RegisterUserUseCase::new(&repo, &hasher);

    let command = RegisterUserCommand {
        email: "test@example.com".to_string(),
        password: "short".to_string(),
        display_name: None,
    };

    let result = use_case.execute(command);
    assert!(matches!(result, Err(AuthError::WeakPassword)));
}

#[test]
fn test_register_invalid_email() {
    let repo = RegistrationRepository {
        existing_emails: vec![],
    };
    let hasher = MockPasswordHasher;
    let use_case = RegisterUserUseCase::new(&repo, &hasher);

    let command = RegisterUserCommand {
        email: "not-an-email".to_string(),
        password: "ValidPass123".to_string(),
        display_name: None,
    };

    let result = use_case.execute(command);
    assert!(matches!(result, Err(AuthError::InvalidEmail)));
}

#[test]
fn test_register_then_duplicate_then_wrong_login() {
    // end to end over the use cases: register, register again, log in with
    // a wrong password and with an unknown email
    let repo = RegistrationRepository {
        existing_emails: vec![],
    };
    let hasher = MockPasswordHasher;
    let use_case = RegisterUserUseCase::new(&repo, &hasher);
    let result = use_case
        .execute(RegisterUserCommand {
            email: "new@example.com".to_string(),
            password: "passworded12".to_string(),
            display_name: None,
        })
        .unwrap();
    assert_eq!(result.email, "new@example.com");

    let taken = RegistrationRepository {
        existing_emails: vec!["new@example.com".to_string()],
    };
    let use_case = RegisterUserUseCase::new(&taken, &hasher);
    let again = use_case.execute(RegisterUserCommand {
        email: "new@example.com".to_string(),
        password: "passworded12".to_string(),
        display_name: None,
    });
    assert!(matches!(again, Err(AuthError::UserAlreadyExists)));

    let login_repo = MockUserRepository {
        user: Some(create_test_user()),
    };
    let token_service = MockTokenService;
    let login = LoginUserUseCase::new(&login_repo, &hasher, &token_service);
    let wrong = login.execute(LoginUserCommand {
        email: "test@example.com".to_string(),
        password: "wrong_password".to_string(),
    });
    assert!(matches!(wrong, Err(AuthError::InvalidCredentials)));
    let unknown = login.execute(LoginUserCommand {
        email: "absent@example.com".to_string(),
        password: "whatever".to_string(),
    });
    // an unknown email converges to the same error as a wrong password
    assert!(matches!(unknown, Err(AuthError::InvalidCredentials)));
}

// Token service that accepts one fixed token
struct SessionTokenService {
    uid: u128,
}

impl TokenService for SessionTokenService {
    fn create_token(&self, _user: &User) -> Result<String, AuthError> {
        Ok("session_token".to_string())
    }

    fn validate_token(&self, token: &str) -> Result<TokenData, AuthError> {
        if token == "session_token" {
            Ok(TokenData {
                user_id: self.uid,
                email: "test@example.com".to_string(),
            })
        } else {
            Err(AuthError::InvalidToken)
        }
    }
}

#[test]
fn test_get_session_success() {
    let user = create_test_user();
    let tokens = SessionTokenService {
        uid: user.id().as_uuid(),
    };
    let repo = MockUserRepository { user: Some(user) };

    let session = get_session(&repo, &tokens, "session_token").unwrap();
    assert_eq!(session.email, "test@example.com");
    assert!(session.is_active);
    assert_eq!(session.display_name, Some("Test".to_string()));
}

#[test]
fn test_get_session_invalid_token() {
    let repo = MockUserRepository {
        user: Some(create_test_user()),
    };
    let tokens = SessionTokenService { uid: 1 };
    let result = get_session(&repo, &tokens, "garbage");
    assert!(matches!(result, Err(AuthError::InvalidToken)));
}

#[test]
fn test_get_session_user_gone() {
    let repo = MockUserRepository { user: None };
    let tokens = SessionTokenService { uid: 1 };
    let result = get_session(&repo, &tokens, "session_token");
    assert!(matches!(result, Err(AuthError::UserNotFound)));
}

#[test]
fn test_register_password_length_counts_bytes() {
    let hasher = MockPasswordHasher;

    // seven ASCII bytes: too short
    let repo = RegistrationRepository {
        existing_emails: vec![],
    };
    let use_case = RegisterUserUseCase::new(&repo, &hasher);
    let short = use_case.execute(RegisterUserCommand {
        email: "a@b.com".to_string(),
        password: "1234567".to_string(),
        display_name: None,
    });
    assert!(matches!(short, Err(AuthError::WeakPassword)));

    // seven characters, but eight bytes: long enough
    let repo = RegistrationRepository {
        existing_emails: vec![],
    };
    let use_case = RegisterUserUseCase::new(&repo, &hasher);
    let long_enough = use_case.execute(RegisterUserCommand {
        email: "a@b.com".to_string(),
        password: "123456\u{e4}".to_string(),
        display_name: None,
    });
    assert!(long_enough.is_ok());
}
