use auth_service::auth::PasswordHasher;
use auth_service::error::AuthError;
use auth_service::hashing::Argon2PasswordHasher;
use auth_service::user::HashedPassword;

#[test]
fn test_hash_and_verify() {
    let hasher = Argon2PasswordHasher::new();
    let password = "SecurePassword123!";

    let hashed = hasher.hash(password).unwrap();

    assert!(hasher.verify(password, &hashed).unwrap());
    assert!(!hasher.verify("WrongPassword", &hashed).unwrap());
}

#[test]
fn test_different_hashes_for_same_password() {
    let hasher = Argon2PasswordHasher::new();
    let password = "TestPassword";

    let hash1 = hasher.hash(password).unwrap();
    let hash2 = hasher.hash(password).unwrap();

    // Hashes should be different due to different salts
    assert_ne!(hash1.as_str(), hash2.as_str());

    // But both should verify correctly
    assert!(hasher.verify(password, &hash1).unwrap());
    assert!(hasher.verify(password, &hash2).unwrap());
}

#[test]
fn test_verify_rejects_malformed_hash() {
    let hasher = Argon2PasswordHasher::new();
    let malformed = HashedPassword::from_hash("not-a-phc-string".to_string());
    let result = hasher.verify("anything", &malformed);
    assert!(matches!(result, Err(AuthError::Internal(_))));
}
