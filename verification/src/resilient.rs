//! The resilient call path shared by every protocol adapter: consult the
//! breaker, invoke the downstream call, classify the outcome, and route it
//! to the breaker — success and transient failure are recorded, a business
//! rejection is recorded nowhere.

use vstd::prelude::*;

use crate::breaker::CircuitBreaker;
use crate::classifier::{classify, spec_classify, Classification, ErrorCategory, Outcome};
use crate::clock::now_unix_millis;

verus! {

/// Some failure instant relates the two breaker states by a single recorded
/// failure.
pub open spec fn records_one_failure(pre: CircuitBreaker, post: CircuitBreaker) -> bool {
    exists|now_ms: u64| post == #[trigger] pre.spec_record_failure(now_ms)
}

/// Consult the breaker before attempting a call at instant `now_ms`: the
/// call is admitted exactly when the breaker is available then; a refused
/// request fails fast with the Unavailable category.
pub fn check_circuit_at(b: &CircuitBreaker, now_ms: u64) -> (r: Result<(), ErrorCategory>)
    ensures
        (r is Ok) == b.spec_available(now_ms),
        r is Err ==> r->Err_0 == ErrorCategory::Unavailable,
{
    if b.is_available_at(now_ms) {
        Ok(())
    } else {
        Err(ErrorCategory::Unavailable)
    }
}

/// Consult the breaker before attempting a call, judged against the wall
/// clock: at the instant read, the call is admitted exactly when the
/// breaker is available — an open breaker past its recovery window admits
/// the probe. A refused request fails fast with the Unavailable category
/// and the call is never made.
pub fn check_circuit(b: &CircuitBreaker) -> (r: Result<(), ErrorCategory>)
    ensures
        !b.is_open ==> r is Ok,
        b.recovery_timeout_ms == 0 ==> r is Ok,
        r is Err ==> r->Err_0 == ErrorCategory::Unavailable && b.is_open,
        exists|now_ms: u64| (r is Ok) == #[trigger] b.spec_available(now_ms),
{
    let now_ms = now_unix_millis();
    let r = check_circuit_at(b, now_ms);
    proof {
        assert((r is Ok) == b.spec_available(now_ms));
    }
    r
}

/// Route a classified outcome to the breaker at instant `now_ms`: a success
/// closes it, a transient failure is recorded, and a business rejection
/// leaves it untouched.
pub fn record_outcome_at(b: &mut CircuitBreaker, o: &Outcome, now_ms: u64)
    ensures
        spec_classify(*o) is Success ==> *final(b) == old(b).spec_record_success(),
        spec_classify(*o) is TransientFailure ==> *final(b) == old(b).spec_record_failure(now_ms),
        spec_classify(*o) is BusinessRejection ==> *final(b) == *old(b),
{
    match classify(o) {
        Classification::Success => b.record_success(),
        Classification::TransientFailure => b.record_failure_at(now_ms),
        Classification::BusinessRejection => (),
    }
}

/// Route a classified outcome to the breaker, time-stamped with the wall
/// clock. Whatever the clock reads: a success closes the breaker, a
/// transient failure is recorded as exactly one failure, and a business
/// rejection leaves the breaker untouched.
pub fn record_outcome(b: &mut CircuitBreaker, o: &Outcome)
    ensures
        spec_classify(*o) is Success ==> *final(b) == old(b).spec_record_success(),
        spec_classify(*o) is TransientFailure ==> records_one_failure(*old(b), *final(b)),
        spec_classify(*o) is BusinessRejection ==> *final(b) == *old(b),
{
    let now_ms = now_unix_millis();
    record_outcome_at(b, o, now_ms);
}

/// Wrap one downstream call with the full path: fail fast with Unavailable
/// when the breaker refuses at instant `now_ms` — without invoking the call
/// — otherwise invoke it, classify its outcome, and record the outcome on
/// the breaker at the same instant.
pub fn resilient_call<T, F: FnOnce() -> Result<T, ErrorCategory>>(
    b: &mut CircuitBreaker,
    now_ms: u64,
    f: F,
) -> (r: Result<T, ErrorCategory>)
    requires
        call_requires(f, ()),
    ensures
        !old(b).spec_available(now_ms) ==> {
            &&& r matches Err(c) && c == ErrorCategory::Unavailable
            &&& *final(b) == *old(b)
        },
        old(b).spec_available(now_ms) ==> call_ensures(f, (), r),
        old(b).spec_available(now_ms) ==> match r {
            Ok(_) => *final(b) == old(b).spec_record_success(),
            Err(c) => if crate::classifier::spec_transient(c) {
                *final(b) == old(b).spec_record_failure(now_ms)
            } else {
                *final(b) == *old(b)
            },
        },
{
    if !b.is_available_at(now_ms) {
        return Err(ErrorCategory::Unavailable);
    }
    let r = f();
    match &r {
        Ok(_) => record_outcome_at(b, &Outcome::Success, now_ms),
        Err(c) => record_outcome_at(b, &Outcome::Failed(*c), now_ms),
    }
    r
}

} // verus!
