use auth_service::breaker::CircuitBreaker;

#[test]
fn test_starts_closed() {
    let cb = CircuitBreaker::new(3, 5_000);
    assert!(cb.is_available());
}

#[test]
fn test_opens_after_threshold() {
    let mut cb = CircuitBreaker::new(3, 60_000);
    cb.record_failure();
    cb.record_failure();
    assert!(cb.is_available()); // still below threshold
    cb.record_failure();
    assert!(!cb.is_available()); // now open
}

#[test]
fn test_resets_on_success() {
    let mut cb = CircuitBreaker::new(2, 60_000);
    cb.record_failure();
    cb.record_failure();
    assert!(!cb.is_available());
    cb.record_success();
    assert!(cb.is_available());
}

#[test]
fn test_half_open_after_recovery_timeout() {
    let mut cb = CircuitBreaker::new(1, 0);
    cb.record_failure();
    // recovery window of zero: available again immediately
    assert!(cb.is_available());
}

#[test]
fn test_explicit_instants() {
    // threshold 3, recovery 60 s, driven by explicit instants
    let mut cb = CircuitBreaker::new(3, 60_000);
    cb.record_failure_at(1_000);
    cb.record_failure_at(2_000);
    assert!(cb.is_available_at(2_000));
    cb.record_failure_at(3_000);
    assert!(!cb.is_available_at(3_000));
    // before the window has elapsed from the tripping failure
    assert!(!cb.is_available_at(62_999));
    // once it has elapsed, a probe is admitted without closing the breaker
    assert!(cb.is_available_at(63_000));
    assert!(cb.is_available_at(90_000));
}

#[test]
fn test_open_failures_do_not_extend_cooldown() {
    let mut cb = CircuitBreaker::new(1, 60_000);
    cb.record_failure_at(1_000);
    assert!(!cb.is_available_at(50_000));
    // a flood of failures while open does not move the recorded instant
    cb.record_failure_at(50_000);
    cb.record_failure_at(60_000);
    assert!(cb.is_available_at(61_000));
}

#[test]
fn test_zero_threshold_trips_on_first_failure() {
    let mut cb = CircuitBreaker::new(0, 60_000);
    assert!(cb.is_available_at(0));
    cb.record_failure_at(1_000);
    assert!(!cb.is_available_at(1_000));
}

#[test]
fn test_success_resets_count_to_zero() {
    let mut cb = CircuitBreaker::new(2, 60_000);
    cb.record_failure_at(1_000);
    cb.record_success();
    // the streak starts over: one more failure does not trip
    cb.record_failure_at(2_000);
    assert!(cb.is_available_at(2_000));
    cb.record_failure_at(3_000);
    assert!(!cb.is_available_at(3_000));
}
