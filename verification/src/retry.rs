//! The retry policy: whether a failed attempt is followed by another one.

use vstd::prelude::*;

verus! {

/// Seconds to wait between two attempts of one job.
pub const RETRY_DELAY_SECS: u64 = 2;

/// How an attempt ended without success.
#[derive(Clone, Copy, Debug, PartialEq, Eq, Structural)]
pub enum Outcome {
    /// The process ran and left with this non-zero code.
    ProcessExitedNonZero(i32),
    /// The process could not be started.
    ProcessSpawnFailed,
    /// The attempt outlived its time limit.
    AttemptTimedOut,
    /// Waiting for the process, or reading its output, failed.
    WaitIoError,
}

/// What follows a failed attempt.
#[derive(Clone, Copy, Debug, PartialEq, Eq, Structural)]
pub enum RetryDecision {
    /// Make another attempt after `delay_secs` seconds.
    Retry { delay_secs: u64 },
    /// Make no further attempt.
    GiveUp,
}

/// The policy itself. A process that cannot be started is never tried
/// again; every other failure is, as long as `attempt` is below
/// `max_retries`, after the fixed delay.
pub open spec fn decide_spec(attempt: u32, max_retries: u32, outcome: Outcome) -> RetryDecision {
    if outcome is ProcessSpawnFailed {
        RetryDecision::GiveUp
    } else if attempt < max_retries {
        RetryDecision::Retry { delay_secs: RETRY_DELAY_SECS }
    } else {
        RetryDecision::GiveUp
    }
}

/// Decides what follows attempt number `attempt` that ended in `outcome`.
pub fn decide(attempt: u32, max_retries: u32, outcome: Outcome) -> (r: RetryDecision)
    ensures
        r == decide_spec(attempt, max_retries, outcome),
{
    match outcome {
        Outcome::ProcessSpawnFailed => RetryDecision::GiveUp,
        _ => {
            if attempt < max_retries {
                RetryDecision::Retry { delay_secs: RETRY_DELAY_SECS }
            } else {
                RetryDecision::GiveUp
            }
        },
    }
}

/// A failure to start the process ends the job at every attempt; a
/// non-zero exit, a timeout or an I/O error is followed by another attempt
/// exactly while the attempt number is below the limit, and the delay is
/// always the same.
pub proof fn law_retry_policy(attempt: u32, max_retries: u32, outcome: Outcome)
    ensures
        outcome is ProcessSpawnFailed ==> decide_spec(attempt, max_retries, outcome)
            is GiveUp,
        !(outcome is ProcessSpawnFailed) ==> (decide_spec(attempt, max_retries, outcome) is Retry
            <==> attempt < max_retries),
        decide_spec(attempt, max_retries, outcome) matches RetryDecision::Retry { delay_secs }
            ==> delay_secs == RETRY_DELAY_SECS,
{
}

} // verus!
