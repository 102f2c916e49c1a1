use anilink_downloader::progress::ProgressParser;
use anilink_downloader::runner::{select_event, Action, Event, JobRunner};
use anilink_downloader::status::{may_follow, DownloadStatus, FailureReason, Progress, StatusTable};

fn running_job(max_retries: u32) -> JobRunner {
    let mut job = JobRunner::new(7, max_retries);
    assert_eq!(job.start(), Action::Spawn);
    assert_eq!(job.status, DownloadStatus::Starting { attempt: 1 });
    assert_eq!(job.step(false, Event::SpawnSucceeded), Action::Nothing);
    job
}

fn unknown() -> Progress {
    Progress { percent: None, speed: None, eta_seconds: None, bytes_so_far: 0 }
}

#[test]
fn a_job_runs_to_completion() {
    let mut job = running_job(3);
    assert_eq!(job.status, DownloadStatus::Running { attempt: 1, progress: unknown() });
    let a = job.step(false, Event::ProcessExited { code: 0, bytes_total: 42 });
    assert_eq!(a, Action::Nothing);
    assert_eq!(job.status, DownloadStatus::Completed { bytes_total: 42 });
}

#[test]
fn terminal_states_are_never_left() {
    let ends = [
        DownloadStatus::Completed { bytes_total: 1 },
        DownloadStatus::Failed { reason: FailureReason::ExitCode(2) },
        DownloadStatus::Cancelled,
        DownloadStatus::TimedOut,
    ];
    let events = [
        Event::CancelRequested,
        Event::SpawnSucceeded,
        Event::SpawnFailed,
        Event::DelayElapsed,
        Event::ProcessExited { code: 0, bytes_total: 5 },
        Event::ProcessExited { code: 1, bytes_total: 5 },
        Event::WaitFailed,
        Event::TimeoutElapsed,
    ];
    for end in ends {
        for event in events {
            for cancelled in [false, true] {
                let mut job = JobRunner::new(1, 3);
                job.status = end;
                let before = job;
                assert_eq!(job.step(cancelled, event), Action::Nothing);
                assert_eq!(job, before);
                assert_eq!(job.pause(), Action::Nothing);
                assert_eq!(job.resume(), Action::Nothing);
                assert_eq!(job.start(), Action::Nothing);
                job.output_line("time=00:00:01", 1, 1);
                assert_eq!(job, before);
            }
        }
        assert!(end.is_terminal());
        for next in ends {
            assert!(!may_follow(end, next));
        }
        assert!(!may_follow(end, DownloadStatus::Pending));
        assert!(!may_follow(end, DownloadStatus::Starting { attempt: 1 }));
    }
}

#[test]
fn pause_and_resume_keep_the_attempt() {
    let mut job = running_job(3);
    assert_eq!(job.step(false, Event::ProcessExited { code: 1, bytes_total: 0 }), Action::Sleep { secs: 2 });
    assert_eq!(job.status, DownloadStatus::Starting { attempt: 2 });
    assert_eq!(job.pause(), Action::Nothing);
    assert_eq!(job.status, DownloadStatus::Starting { attempt: 2 });
    assert_eq!(job.step(false, Event::DelayElapsed), Action::Spawn);
    assert_eq!(job.step(false, Event::SpawnSucceeded), Action::Nothing);
    job.output_line("Duration: 00:00:10.00, x", 0, 0);
    job.output_line("time=00:00:05.00 x", 5_000_000, 77);
    let shown = Progress { percent: Some(5000), speed: Some(1000), eta_seconds: Some(5), bytes_so_far: 77 };
    assert_eq!(job.status, DownloadStatus::Running { attempt: 2, progress: shown });
    assert_eq!(job.pause(), Action::Suspend);
    assert_eq!(job.status, DownloadStatus::Paused { attempt: 2 });
    assert_eq!(job.pause(), Action::Nothing);
    job.output_line("time=00:00:06.00 x", 6_000_000, 99);
    assert_eq!(job.status, DownloadStatus::Paused { attempt: 2 });
    assert_eq!(job.step(false, Event::TimeoutElapsed), Action::Nothing);
    assert_eq!(job.status, DownloadStatus::Paused { attempt: 2 });
    assert_eq!(job.resume(), Action::Resume);
    assert_eq!(job.status, DownloadStatus::Running { attempt: 2, progress: shown });
    assert_eq!(job.resume(), Action::Nothing);
}

#[test]
fn pausing_a_job_that_does_not_run_changes_nothing() {
    let mut pending = JobRunner::new(1, 3);
    let before = pending;
    assert_eq!(pending.pause(), Action::Nothing);
    assert_eq!(pending.resume(), Action::Nothing);
    assert_eq!(pending, before);
}

#[test]
fn cancellation_goes_first() {
    let mut job = running_job(3);
    assert_eq!(job.step(true, Event::ProcessExited { code: 0, bytes_total: 1 }), Action::Nothing);
    assert_eq!(job.status, DownloadStatus::Cancelled);

    let mut job = running_job(3);
    assert_eq!(job.step(false, Event::CancelRequested), Action::Kill);
    assert_eq!(job.status, DownloadStatus::Cancelled);

    let mut job = running_job(3);
    job.pause();
    assert_eq!(job.step(true, Event::TimeoutElapsed), Action::Kill);
    assert_eq!(job.status, DownloadStatus::Cancelled);

    let mut job = JobRunner::new(1, 3);
    job.start();
    assert_eq!(job.step(true, Event::SpawnSucceeded), Action::Kill);
    assert_eq!(job.status, DownloadStatus::Cancelled);

    let mut job = JobRunner::new(1, 3);
    job.start();
    assert_eq!(job.step(true, Event::SpawnFailed), Action::Nothing);
    assert_eq!(job.status, DownloadStatus::Cancelled);

    let mut job = JobRunner::new(1, 3);
    assert_eq!(job.step(true, Event::DelayElapsed), Action::Nothing);
    assert_eq!(job.status, DownloadStatus::Cancelled);

    let mut job = running_job(3);
    job.request_cancel();
    assert_eq!(job.status, DownloadStatus::Running { attempt: 1, progress: unknown() });
    assert_eq!(job.step(false, Event::TimeoutElapsed), Action::Kill);
    assert_eq!(job.status, DownloadStatus::Cancelled);

    assert_eq!(select_event(true, true, Some(Event::WaitFailed)), Some(Event::CancelRequested));
    assert_eq!(select_event(false, true, Some(Event::WaitFailed)), Some(Event::TimeoutElapsed));
    assert_eq!(select_event(false, false, Some(Event::WaitFailed)), Some(Event::WaitFailed));
    assert_eq!(select_event(false, false, None), None);
}

#[test]
fn timeouts_share_the_attempt_budget() {
    let mut job = running_job(2);
    assert_eq!(job.step(false, Event::TimeoutElapsed), Action::KillThenSleep { secs: 2 });
    assert_eq!(job.status, DownloadStatus::Starting { attempt: 2 });
    assert_eq!(job.step(false, Event::SpawnSucceeded), Action::Nothing);
    assert_eq!(job.status, DownloadStatus::Starting { attempt: 2 });
    assert_eq!(job.step(false, Event::DelayElapsed), Action::Spawn);
    assert_eq!(job.step(false, Event::SpawnSucceeded), Action::Nothing);
    assert_eq!(job.parser, ProgressParser::new());
    assert_eq!(job.step(false, Event::TimeoutElapsed), Action::Kill);
    assert_eq!(job.status, DownloadStatus::TimedOut);
}

#[test]
fn every_failure_has_its_reason() {
    let mut job = JobRunner::new(1, 5);
    job.start();
    assert_eq!(job.step(false, Event::SpawnFailed), Action::Nothing);
    assert_eq!(job.status, DownloadStatus::Failed { reason: FailureReason::SpawnFailed });

    let mut job = running_job(1);
    assert_eq!(job.step(false, Event::WaitFailed), Action::Nothing);
    assert_eq!(job.status, DownloadStatus::Failed { reason: FailureReason::IoError });

    let mut job = running_job(1);
    assert_eq!(job.step(false, Event::ProcessExited { code: 3, bytes_total: 0 }), Action::Nothing);
    assert_eq!(job.status, DownloadStatus::Failed { reason: FailureReason::ExitCode(3) });

    let mut job = running_job(9);
    job.pause();
    assert_eq!(job.step(false, Event::ProcessExited { code: 3, bytes_total: 0 }), Action::Nothing);
    assert_eq!(job.status, DownloadStatus::Failed { reason: FailureReason::ExitCode(3) });
}

#[test]
fn the_table_refuses_steps_outside_the_lifecycle() {
    assert_eq!(StatusTable::new(vec![1, 2, 1]), None);
    let mut table = StatusTable::new(vec![10, 20]).unwrap();
    assert_eq!(table.len(), 2);
    assert_eq!(table.get(10), Some(DownloadStatus::Pending));
    assert_eq!(table.get(30), None);
    assert!(!table.publish(30, DownloadStatus::Cancelled));
    assert!(!table.publish(10, DownloadStatus::Completed { bytes_total: 1 }));
    assert!(!table.publish(10, DownloadStatus::Starting { attempt: 2 }));
    assert!(table.publish(10, DownloadStatus::Starting { attempt: 1 }));
    assert!(table.publish(10, DownloadStatus::Running { attempt: 1, progress: unknown() }));
    assert!(table.publish(10, DownloadStatus::Paused { attempt: 1 }));
    assert!(!table.publish(10, DownloadStatus::Starting { attempt: 2 }));
    assert!(!table.publish(10, DownloadStatus::Running { attempt: 2, progress: unknown() }));
    assert!(table.publish(10, DownloadStatus::Running { attempt: 1, progress: unknown() }));
    assert!(table.publish(10, DownloadStatus::Starting { attempt: 2 }));
    assert!(table.publish(10, DownloadStatus::Failed { reason: FailureReason::SpawnFailed }));
    assert!(!table.publish(10, DownloadStatus::Cancelled));
    assert!(!table.is_finished());
    assert!(table.publish(20, DownloadStatus::Cancelled));
    assert!(table.is_finished());
    assert_eq!(
        table.snapshot(),
        vec![
            (10, DownloadStatus::Failed { reason: FailureReason::SpawnFailed }),
            (20, DownloadStatus::Cancelled)
        ]
    );
    assert!(StatusTable::new(vec![]).unwrap().is_finished());
}
