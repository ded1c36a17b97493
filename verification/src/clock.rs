//! The wall clock that the scheduler reads.

use vstd::prelude::*;

verus! {

/// Reads `clock_ticks::precise_time_ns`: the nanoseconds that have passed since
/// an epoch that the clock does not name. The reading depends on the moment of
/// the call, so nothing is claimed of it.
#[verifier::external_body]
pub(crate) fn precise_time_ns() -> (now: u64) {
    clock_ticks::precise_time_ns()
}

} // verus!
