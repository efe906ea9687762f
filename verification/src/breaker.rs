//! Circuit breaker guarding calls to a downstream dependency.
//!
//! The breaker counts consecutive transient failures. Once the count reaches
//! the configured threshold it trips open and records the instant of the
//! tripping failure; while open, requests are refused until the recovery
//! window has elapsed, after which a probe is admitted again (the state flag
//! itself is only reset by a recorded success). Failures recorded while the
//! breaker is already open do not move the recorded instant, so a flood of
//! failures does not extend the cool-down.

use vstd::prelude::*;

use crate::clock::now_unix_millis;

verus! {

/// Milliseconds elapsed from `then_ms` to `now_ms`, clamped at zero when the
/// clock appears to have moved backwards.
pub open spec fn elapsed_ms(now_ms: u64, then_ms: u64) -> int {
    if now_ms >= then_ms {
        now_ms - then_ms
    } else {
        0
    }
}

/// Consecutive-failure circuit breaker.
///
/// The fields are public so that contracts and the laws below can speak of
/// the state directly; use the methods to evolve it.
pub struct CircuitBreaker {
    /// Consecutive transient failures since the last recorded success.
    pub failure_count: u32,
    /// Whether the breaker has tripped open.
    pub is_open: bool,
    /// Instant (Unix milliseconds) of the failure that tripped the breaker.
    pub last_failure_ms: u64,
    /// Consecutive failures needed to trip; fixed at construction.
    pub threshold: u32,
    /// Cool-down in milliseconds before probing resumes; fixed at construction.
    pub recovery_timeout_ms: u64,
}

impl CircuitBreaker {
    /// The freshly constructed (closed) state.
    pub open spec fn spec_new(threshold: u32, recovery_timeout_ms: u64) -> CircuitBreaker {
        CircuitBreaker {
            failure_count: 0,
            is_open: false,
            last_failure_ms: 0,
            threshold,
            recovery_timeout_ms,
        }
    }

    /// Whether a request is admitted at instant `now_ms`: always while
    /// closed, and once the recovery window has elapsed while open.
    pub open spec fn spec_available(self, now_ms: u64) -> bool {
        !self.is_open || elapsed_ms(now_ms, self.last_failure_ms) >= self.recovery_timeout_ms
    }

    /// The failure count after one more failure, saturating at the top of
    /// the counter's range.
    pub open spec fn spec_bump(self) -> u32 {
        if self.failure_count == u32::MAX {
            u32::MAX
        } else {
            (self.failure_count + 1) as u32
        }
    }

    /// The state after recording a failure at instant `now_ms`: the count
    /// rises, and the breaker trips — recording the instant — exactly when a
    /// closed breaker reaches the threshold.
    pub open spec fn spec_record_failure(self, now_ms: u64) -> CircuitBreaker {
        if !self.is_open && self.spec_bump() >= self.threshold {
            CircuitBreaker {
                failure_count: self.spec_bump(),
                is_open: true,
                last_failure_ms: now_ms,
                ..self
            }
        } else {
            CircuitBreaker { failure_count: self.spec_bump(), ..self }
        }
    }

    /// The state after recording a success: the count is reset and the
    /// breaker closes, unconditionally.
    pub open spec fn spec_record_success(self) -> CircuitBreaker {
        CircuitBreaker { failure_count: 0, is_open: false, ..self }
    }

    /// Create a breaker that trips after `threshold` consecutive failures
    /// and admits a probe `recovery_timeout_ms` milliseconds after tripping.
    pub fn new(threshold: u32, recovery_timeout_ms: u64) -> (r: CircuitBreaker)
        ensures
            r == CircuitBreaker::spec_new(threshold, recovery_timeout_ms),
    {
        CircuitBreaker {
            failure_count: 0,
            is_open: false,
            last_failure_ms: 0,
            threshold,
            recovery_timeout_ms,
        }
    }

    /// Whether a request is admitted at the given instant.
    pub fn is_available_at(&self, now_ms: u64) -> (r: bool)
        ensures
            r == self.spec_available(now_ms),
    {
        if !self.is_open {
            true
        } else {
            now_ms.saturating_sub(self.last_failure_ms) >= self.recovery_timeout_ms
        }
    }

    /// Whether a request is admitted right now, judged against the wall
    /// clock. A closed breaker, or one with a zero recovery window, admits
    /// every request whatever the clock reads.
    pub fn is_available(&self) -> (r: bool)
        ensures
            !self.is_open ==> r,
            self.recovery_timeout_ms == 0 ==> r,
            exists|now_ms: u64| r == #[trigger] self.spec_available(now_ms),
    {
        let now_ms = now_unix_millis();
        let r = self.is_available_at(now_ms);
        proof {
            assert(r == self.spec_available(now_ms));
        }
        r
    }

    /// Record a successful response: resets the failure count and closes
    /// the breaker.
    pub fn record_success(&mut self)
        ensures
            *final(self) == old(self).spec_record_success(),
    {
        self.failure_count = 0;
        self.is_open = false;
    }

    /// Record a failed response observed at instant `now_ms`.
    pub fn record_failure_at(&mut self, now_ms: u64)
        ensures
            *final(self) == old(self).spec_record_failure(now_ms),
    {
        let bumped: u32 = if self.failure_count == u32::MAX {
            u32::MAX
        } else {
            self.failure_count + 1
        };
        let was_open: bool = self.is_open;
        self.failure_count = bumped;
        if !was_open && bumped >= self.threshold {
            self.is_open = true;
            self.last_failure_ms = now_ms;
        }
    }

    /// Record a failed response, time-stamped with the wall clock.
    pub fn record_failure(&mut self)
        ensures
            exists|now_ms: u64| *final(self) == #[trigger] old(self).spec_record_failure(now_ms),
            final(self).failure_count == old(self).spec_bump(),
            final(self).is_open == (old(self).is_open || old(self).spec_bump() >= old(self).threshold),
            final(self).threshold == old(self).threshold,
            final(self).recovery_timeout_ms == old(self).recovery_timeout_ms,
            old(self).is_open ==> final(self).last_failure_ms == old(self).last_failure_ms,
    {
        let now_ms = now_unix_millis();
        self.record_failure_at(now_ms);
        proof {
            assert(*self == old(self).spec_record_failure(now_ms));
        }
    }
}

/// The breaker state after a sequence of failures recorded at the given
/// instants, in order.
pub open spec fn run_failures(b: CircuitBreaker, times: Seq<u64>) -> CircuitBreaker
    decreases times.len(),
{
    if times.len() == 0 {
        b
    } else {
        run_failures(b.spec_record_failure(times[0]), times.drop_first())
    }
}

/// A closed breaker whose remaining headroom equals the length of a failure
/// streak ends that streak open, with the tripping instant taken from the
/// streak's last failure.
proof fn lemma_run_reaches_threshold(b: CircuitBreaker, times: Seq<u64>)
    requires
        !b.is_open,
        times.len() >= 1,
        b.failure_count + times.len() == b.threshold,
    ensures
        ({
            let r = run_failures(b, times);
            &&& r.is_open
            &&& r.failure_count == b.threshold
            &&& r.last_failure_ms == times[times.len() - 1]
            &&& r.threshold == b.threshold
            &&& r.recovery_timeout_ms == b.recovery_timeout_ms
        }),
    decreases times.len(),
{
    let stepped = b.spec_record_failure(times[0]);
    if times.len() == 1 {
        assert(b.spec_bump() == b.threshold);
        assert(run_failures(stepped, times.drop_first()) == stepped);
    } else {
        assert(!stepped.is_open);
        lemma_run_reaches_threshold(stepped, times.drop_first());
        assert(times.drop_first()[times.drop_first().len() - 1] == times[times.len() - 1]);
    }
}

/// After exactly `threshold` consecutive recorded failures, with no
/// intervening success, a fresh breaker is open and refuses requests until
/// the recovery window has elapsed from the tripping (that is, the last)
/// failure.
pub proof fn lemma_opens_after_threshold(
    threshold: u32,
    recovery_timeout_ms: u64,
    times: Seq<u64>,
    now_ms: u64,
)
    requires
        threshold >= 1,
        times.len() == threshold,
    ensures
        ({
            let r = run_failures(CircuitBreaker::spec_new(threshold, recovery_timeout_ms), times);
            &&& r.is_open
            &&& r.failure_count == threshold
            &&& r.last_failure_ms == times[times.len() - 1]
            &&& elapsed_ms(now_ms, times[times.len() - 1]) < recovery_timeout_ms
                ==> !r.spec_available(now_ms)
        }),
{
    lemma_run_reaches_threshold(
        CircuitBreaker::spec_new(threshold, recovery_timeout_ms),
        times,
    );
}

/// The breaker's state invariant: an open breaker has counted at least
/// `threshold` consecutive failures since the last recorded success.
pub open spec fn count_supports_open(b: CircuitBreaker) -> bool {
    b.is_open ==> b.failure_count >= b.threshold
}

/// The state invariant holds of a fresh breaker and is preserved by every
/// transition: only a failure streak that reaches the threshold can hold
/// the breaker open.
pub proof fn lemma_count_supports_open_invariant(
    b: CircuitBreaker,
    threshold: u32,
    recovery_timeout_ms: u64,
    now_ms: u64,
)
    requires
        count_supports_open(b),
    ensures
        count_supports_open(CircuitBreaker::spec_new(threshold, recovery_timeout_ms)),
        count_supports_open(b.spec_record_failure(now_ms)),
        count_supports_open(b.spec_record_success()),
{
}

/// A single recorded success, at any point, closes the breaker, resets the
/// failure count to zero, and makes the breaker available at every instant.
pub proof fn lemma_success_restores_service(b: CircuitBreaker, now_ms: u64)
    ensures
        b.spec_record_success().failure_count == 0,
        !b.spec_record_success().is_open,
        b.spec_record_success().spec_available(now_ms),
{
}

/// With a zero recovery window, the breaker is available at every instant
/// even immediately after the failure that trips it.
pub proof fn lemma_zero_window_recovers_immediately(b: CircuitBreaker, fail_ms: u64, now_ms: u64)
    requires
        b.recovery_timeout_ms == 0,
    ensures
        b.spec_record_failure(fail_ms).spec_available(now_ms),
{
}

} // verus!
