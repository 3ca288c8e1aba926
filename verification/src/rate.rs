//! Timed batch of trials: how fast one worker runs the single-trial
//! search.

use crate::search::SearchSpec;
use crate::search::trial;
use vstd::prelude::*;

verus! {

#[verifier::external_type_specification]
#[verifier::external_body]
pub struct ExInstant(std::time::Instant);

/// Relies on `std::time::Instant::now`: a reading of the monotonic clock.
/// Nothing can be promised of a clock value.
#[verifier::external_body]
fn clock_now() -> std::time::Instant {
    std::time::Instant::now()
}

/// Relies on `std::time::Instant::elapsed`: the time since the reading
/// was taken.  Nothing can be promised of a clock value.
#[verifier::external_body]
fn clock_elapsed(start: &std::time::Instant) -> std::time::Duration {
    start.elapsed()
}

/// Relies on `std::time::Duration::as_nanos`: the duration in whole
/// nanoseconds.
#[verifier::external_body]
fn duration_nanos(d: &std::time::Duration) -> u128 {
    d.as_nanos()
}

/// A measured batch: how many trials ran and how long they took.  The
/// derived trials-per-second figure is the caller's to compute; it is
/// advisory and never gates the search itself.
pub struct RateSample {
    pub trials: u64,
    pub elapsed_nanos: u128,
}

/// Run `batch` trials of `spec` on the calling worker and report the
/// count together with the elapsed wall-clock time.  The keypairs the
/// batch draws are discarded, not reported.  A batch large enough to
/// amortize timer resolution (some hundred thousand trials) gives a
/// usable figure; the elapsed time itself is whatever the clock showed.
pub fn measure_rate(spec: &SearchSpec, batch: u64) -> (r: RateSample)
    requires
        spec.wf(),
    ensures
        r.trials == batch,
{
    let start = clock_now();
    let mut i: u64 = 0;
    while i < batch
        invariant
            spec.wf(),
        decreases batch - i,
    {
        let _ = trial(spec);
        i = i + 1;
    }
    let elapsed = clock_elapsed(&start);
    RateSample { trials: batch, elapsed_nanos: duration_nanos(&elapsed) }
}

} // verus!
