use auth_service::api::map_auth_error;
use auth_service::breaker::CircuitBreaker;
use auth_service::classifier::{classify, Classification, ErrorCategory, Outcome};
use auth_service::error::AuthError;
use auth_service::resilient::{check_circuit, record_outcome_at, resilient_call};

#[test]
fn test_classifier_transient_categories() {
    for c in [
        ErrorCategory::Unavailable,
        ErrorCategory::DeadlineExceeded,
        ErrorCategory::Internal,
        ErrorCategory::Unknown,
    ] {
        assert_eq!(
            classify(&Outcome::Failed(c)),
            Classification::TransientFailure
        );
    }
}

#[test]
fn test_classifier_business_categories() {
    for c in [
        ErrorCategory::InvalidArgument,
        ErrorCategory::NotFound,
        ErrorCategory::AlreadyExists,
        ErrorCategory::PermissionDenied,
        ErrorCategory::Unauthenticated,
    ] {
        assert_eq!(
            classify(&Outcome::Failed(c)),
            Classification::BusinessRejection
        );
    }
}

#[test]
fn test_classifier_success() {
    assert_eq!(classify(&Outcome::Success), Classification::Success);
}

#[test]
fn test_only_transient_failures_feed_the_breaker() {
    let mut cb = CircuitBreaker::new(1, 60_000);

    // a burst of business rejections leaves the breaker untouched
    for c in [
        ErrorCategory::InvalidArgument,
        ErrorCategory::NotFound,
        ErrorCategory::AlreadyExists,
        ErrorCategory::PermissionDenied,
        ErrorCategory::Unauthenticated,
    ] {
        record_outcome_at(&mut cb, &Outcome::Failed(c), 1_000);
        assert!(cb.is_available_at(1_000));
    }

    // one transient failure trips this threshold-1 breaker
    record_outcome_at(&mut cb, &Outcome::Failed(ErrorCategory::Unavailable), 1_000);
    assert!(!cb.is_available_at(1_000));

    // a success closes it again
    record_outcome_at(&mut cb, &Outcome::Success, 2_000);
    assert!(cb.is_available_at(2_000));
}

#[test]
fn test_check_circuit_fails_fast_when_open() {
    let mut cb = CircuitBreaker::new(1, 3_600_000);
    assert!(check_circuit(&cb).is_ok());
    cb.record_failure();
    assert_eq!(check_circuit(&cb), Err(ErrorCategory::Unavailable));
}

#[test]
fn test_resilient_call_success_and_failure() {
    let mut cb = CircuitBreaker::new(2, 60_000);

    let ok = resilient_call(&mut cb, 1_000, || Ok::<u32, ErrorCategory>(5));
    assert_eq!(ok, Ok(5));
    assert!(cb.is_available_at(1_000));

    let business = resilient_call(&mut cb, 1_000, || {
        Err::<u32, ErrorCategory>(ErrorCategory::NotFound)
    });
    assert_eq!(business, Err(ErrorCategory::NotFound));
    assert!(cb.is_available_at(1_000));

    let t1 = resilient_call(&mut cb, 1_000, || {
        Err::<u32, ErrorCategory>(ErrorCategory::Unavailable)
    });
    assert_eq!(t1, Err(ErrorCategory::Unavailable));
    let t2 = resilient_call(&mut cb, 2_000, || {
        Err::<u32, ErrorCategory>(ErrorCategory::DeadlineExceeded)
    });
    assert_eq!(t2, Err(ErrorCategory::DeadlineExceeded));

    // the breaker is open: the downstream closure is never invoked
    let refused = resilient_call(&mut cb, 3_000, || {
        panic!("the call path must not invoke the downstream while open")
    });
    assert_eq!(refused, Err::<u32, ErrorCategory>(ErrorCategory::Unavailable));

    // after the recovery window, the probe goes through again
    let probe = resilient_call(&mut cb, 62_000, || Ok::<u32, ErrorCategory>(9));
    assert_eq!(probe, Ok(9));
    assert!(cb.is_available_at(62_000));
}

#[test]
fn test_domain_errors_map_to_business_categories() {
    assert_eq!(
        map_auth_error(&AuthError::UserAlreadyExists),
        ErrorCategory::AlreadyExists
    );
    assert_eq!(
        map_auth_error(&AuthError::UserNotFound),
        ErrorCategory::NotFound
    );
    assert_eq!(
        map_auth_error(&AuthError::InvalidCredentials),
        ErrorCategory::Unauthenticated
    );
    assert_eq!(
        map_auth_error(&AuthError::InvalidToken),
        ErrorCategory::Unauthenticated
    );
    assert_eq!(
        map_auth_error(&AuthError::TokenExpired),
        ErrorCategory::Unauthenticated
    );
    assert_eq!(
        map_auth_error(&AuthError::InvalidEmail),
        ErrorCategory::InvalidArgument
    );
    assert_eq!(
        map_auth_error(&AuthError::WeakPassword),
        ErrorCategory::InvalidArgument
    );
    assert_eq!(
        map_auth_error(&AuthError::AccountInactive),
        ErrorCategory::PermissionDenied
    );
    assert_eq!(
        map_auth_error(&AuthError::Internal("x".to_string())),
        ErrorCategory::Internal
    );
}
