use anilink_downloader::retry::{decide, Outcome, RetryDecision, RETRY_DELAY_SECS};

#[test]
fn spawn_failure_is_never_retried() {
    for attempt in 1..6u32 {
        for max in 0..6u32 {
            assert_eq!(decide(attempt, max, Outcome::ProcessSpawnFailed), RetryDecision::GiveUp);
        }
    }
}

#[test]
fn other_failures_retry_below_the_limit() {
    let outcomes = [
        Outcome::ProcessExitedNonZero(1),
        Outcome::ProcessExitedNonZero(-9),
        Outcome::AttemptTimedOut,
        Outcome::WaitIoError,
    ];
    for outcome in outcomes {
        assert_eq!(decide(1, 3, outcome), RetryDecision::Retry { delay_secs: 2 });
        assert_eq!(decide(2, 3, outcome), RetryDecision::Retry { delay_secs: 2 });
        assert_eq!(decide(3, 3, outcome), RetryDecision::GiveUp);
        assert_eq!(decide(4, 3, outcome), RetryDecision::GiveUp);
        assert_eq!(decide(1, 0, outcome), RetryDecision::GiveUp);
        assert_eq!(decide(0, 1, outcome), RetryDecision::Retry { delay_secs: 2 });
    }
}

#[test]
fn retry_delay_is_two_seconds() {
    assert_eq!(RETRY_DELAY_SECS, 2);
    assert_eq!(
        decide(1, u32::MAX, Outcome::AttemptTimedOut),
        RetryDecision::Retry { delay_secs: RETRY_DELAY_SECS }
    );
    assert_eq!(decide(u32::MAX, u32::MAX, Outcome::AttemptTimedOut), RetryDecision::GiveUp);
}
