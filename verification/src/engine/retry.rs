//! When a failing operation is tried again, and when the retrying stops.
use vstd::prelude::*;

verus! {

/// What to do after an attempt failed.
#[derive(Debug, Clone, Copy, PartialEq, Eq, Structural)]
pub enum RetryStep {
    /// Stop and report the failure.
    GiveUp,
    /// Wait the backoff for attempt number `backoff_attempt` (counted from 0), then try
    /// again.
    Retry { backoff_attempt: usize },
}

/// The step after the `attempt`-th attempt (counted from 1) failed, with at most
/// `max_attempts` attempts.
pub open spec fn step_after(attempt: usize, max_attempts: usize) -> RetryStep {
    if attempt >= max_attempts {
        RetryStep::GiveUp
    } else {
        RetryStep::Retry { backoff_attempt: (attempt - 1) as usize }
    }
}

/// The step after the `attempt`-th attempt failed.
pub fn after_failure(attempt: usize, max_attempts: usize) -> (r: RetryStep)
    requires
        attempt >= 1,
    ensures
        r == step_after(attempt, max_attempts),
{
    if attempt >= max_attempts {
        RetryStep::GiveUp
    } else {
        RetryStep::Retry { backoff_attempt: attempt - 1 }
    }
}

/// How many times an operation that always fails is tried: `max_attempts`, and at least
/// once.
pub open spec fn attempts_made(max_attempts: usize) -> usize {
    if max_attempts == 0 {
        1
    } else {
        max_attempts
    }
}

/// An operation that keeps failing is tried exactly `attempts_made(max_attempts)` times:
/// every earlier failure is retried after the backoff of the attempt before it, and the
/// last one gives up.
pub proof fn law_retries_stop_after_max_attempts(max_attempts: usize, attempt: usize)
    requires
        1 <= attempt,
    ensures
        attempt < attempts_made(max_attempts) ==> step_after(attempt, max_attempts)
            == (RetryStep::Retry { backoff_attempt: (attempt - 1) as usize }),
        attempt == attempts_made(max_attempts) ==> step_after(attempt, max_attempts)
            == RetryStep::GiveUp,
{
}

} // verus!
