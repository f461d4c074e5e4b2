//! The bounded wait for a freshly launched player to answer on the bus.

use vstd::prelude::*;
use crate::error::TimeoutError;

verus! {

/// The pause between two attempts of the liveness probe, in milliseconds.
pub const PROBE_INTERVAL_MS: u64 = 100;

/// What follows an attempt of the liveness probe.
#[derive(Clone, Copy, Debug, PartialEq, Eq, Structural)]
pub enum ProbeVerdict {
    /// The player answered: the wait is over.
    Ready,
    /// Pause for `delay_ms` milliseconds, then probe again.
    Retry { delay_ms: u64 },
    /// The player did not answer within the bound: the wait has failed.
    TimedOut(TimeoutError),
}

/// The verdict on an attempt that ended `elapsed_ms` milliseconds after the
/// wait began. An answer ends the wait, whenever it comes. Without one the
/// wait goes on until the elapsed time exceeds the bound.
pub open spec fn verdict_for(answered: bool, elapsed_ms: u64, timeout_ms: u64) -> ProbeVerdict {
    if answered {
        ProbeVerdict::Ready
    } else if elapsed_ms > timeout_ms {
        ProbeVerdict::TimedOut(TimeoutError { timeout_ms })
    } else {
        ProbeVerdict::Retry { delay_ms: PROBE_INTERVAL_MS }
    }
}

/// Judges one attempt of the liveness probe: `answered` says whether the
/// call succeeded, `elapsed_ms` how long the wait has lasted so far, and
/// `timeout_ms` is the bound on the whole wait.
pub fn probe_verdict(answered: bool, elapsed_ms: u64, timeout_ms: u64) -> (verdict: ProbeVerdict)
    ensures
        verdict == verdict_for(answered, elapsed_ms, timeout_ms),
{
    if answered {
        ProbeVerdict::Ready
    } else if elapsed_ms > timeout_ms {
        ProbeVerdict::TimedOut(TimeoutError { timeout_ms })
    } else {
        ProbeVerdict::Retry { delay_ms: PROBE_INTERVAL_MS }
    }
}

/// The attempts are spaced by at least the probe interval: each ends no
/// earlier than one interval after the one before.
pub open spec fn spaced(elapsed: Seq<u64>) -> bool {
    forall|k: int|
        0 < k < elapsed.len() ==> #[trigger] elapsed[k] >= elapsed[k - 1] + PROBE_INTERVAL_MS
}

/// The wait is bounded: where no attempt is answered and every attempt but
/// the last is followed by another, the number of attempts is at most the
/// bound divided by the interval, plus two.
pub proof fn lemma_wait_is_bounded(elapsed: Seq<u64>, timeout_ms: u64)
    requires
        spaced(elapsed),
        forall|k: int|
            0 <= k < elapsed.len() - 1 ==> verdict_for(false, #[trigger] elapsed[k], timeout_ms)
                is Retry,
    ensures
        elapsed.len() <= timeout_ms / PROBE_INTERVAL_MS + 2,
{
    if elapsed.len() >= 2 {
        let last = elapsed.len() - 2;
        lemma_elapsed_grows(elapsed, last);
        assert(elapsed[last] <= timeout_ms);
        assert(last * PROBE_INTERVAL_MS <= timeout_ms);
    }
}

/// The attempt with index `k` ends no earlier than `k` intervals after the
/// wait began.
proof fn lemma_elapsed_grows(elapsed: Seq<u64>, k: int)
    requires
        spaced(elapsed),
        0 <= k < elapsed.len(),
    ensures
        elapsed[k] >= k * PROBE_INTERVAL_MS,
    decreases k,
{
    if k > 0 {
        lemma_elapsed_grows(elapsed, k - 1);
    }
}

/// Without an answer the wait fails exactly when the elapsed time exceeds
/// the bound, and the error names that bound.
pub proof fn lemma_unanswered_wait_times_out(elapsed_ms: u64, timeout_ms: u64)
    ensures
        elapsed_ms > timeout_ms ==> verdict_for(false, elapsed_ms, timeout_ms)
            == ProbeVerdict::TimedOut(TimeoutError { timeout_ms }),
        elapsed_ms <= timeout_ms ==> verdict_for(false, elapsed_ms, timeout_ms) is Retry,
{
}

} // verus!
