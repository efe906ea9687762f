//! Wall-clock access for the components that time-stamp events.
//!
//! Every state transition in this crate takes the current instant as an
//! explicit argument, so the logic is verified for every possible clock
//! reading; this module only supplies the reading itself.

use vstd::prelude::*;

verus! {

/// Relies on chrono::Utc::now for the current instant, reduced to whole
/// milliseconds since the Unix epoch; a clock reading before the epoch is
/// clamped to zero. A clock reading depends on the machine and the moment,
/// so nothing is promised of the result.
#[verifier::external_body]
pub(crate) fn now_unix_millis() -> u64 {
    let ms = chrono::Utc::now().timestamp_millis();
    if ms < 0 {
        0
    } else {
        ms as u64
    }
}

} // verus!
