use anilink_downloader::orchestrator::Orchestrator;
use anilink_downloader::runner::{Action, Event};
use anilink_downloader::status::{DownloadStatus, FailureReason};

fn exit(code: i32) -> Event {
    Event::ProcessExited { code, bytes_total: 1000 }
}

fn is_active(o: &Orchestrator, id: usize) -> bool {
    o.status(id).unwrap().is_active()
}

#[test]
fn a_batch_needs_a_slot_and_distinct_ids() {
    assert!(Orchestrator::new(vec![1, 2], 0, 3).is_none());
    assert!(Orchestrator::new(vec![1, 2, 1], 2, 3).is_none());
    let o = Orchestrator::new(vec![], 1, 3).unwrap();
    assert!(o.is_batch_finished());
    let o = Orchestrator::new(vec![5], 1, 3).unwrap();
    assert!(!o.is_batch_finished());
    assert_eq!(o.status(5), Some(DownloadStatus::Pending));
    assert_eq!(o.status(6), None);
}

#[test]
fn a_batch_from_items_and_settings() {
    let item = |id: usize| anilink_downloader::items::LinkInfo {
        id,
        name: format!("n{}", id),
        url: "u".to_string(),
        referer: None,
        subtitles: vec![],
        quality: None,
    };
    let mut settings = anilink_downloader::items::Settings::default();
    settings.parallel_downloads = 2;
    settings.retries = 1;
    let mut o = Orchestrator::for_items(&vec![item(4), item(2), item(9)], &settings).unwrap();
    assert_eq!(o.start_downloads(), vec![4, 2]);
    o.handle(4, Event::SpawnSucceeded);
    assert_eq!(o.handle(4, exit(7)), Action::Nothing);
    assert!(Orchestrator::for_items(&vec![item(4), item(4)], &settings).is_none());
    settings.parallel_downloads = 0;
    assert!(Orchestrator::for_items(&vec![item(4)], &settings).is_none());
}

#[test]
fn at_most_n_jobs_hold_a_slot() {
    let ids: Vec<usize> = (0..7).collect();
    let mut o = Orchestrator::new(ids, 3, 3).unwrap();
    assert_eq!(o.start_next(), Some(0));
    assert_eq!(o.start_next(), Some(1));
    assert_eq!(o.start_next(), Some(2));
    assert_eq!(o.start_next(), None);
    assert_eq!(o.active_jobs(), 3);
    for id in 0..3 {
        assert_eq!(o.handle(id, Event::SpawnSucceeded), Action::Nothing);
    }
    assert_eq!(o.start_next(), None);
    assert_eq!(o.handle(1, exit(1)), Action::Sleep { secs: 2 });
    assert_eq!(o.active_jobs(), 3);
    assert_eq!(o.start_next(), None);
    assert_eq!(o.pause_one(0), Action::Suspend);
    assert_eq!(o.start_next(), None);
    assert_eq!(o.handle(2, exit(0)), Action::Nothing);
    assert_eq!(o.active_jobs(), 2);
    assert_eq!(o.start_next(), Some(3));
    assert_eq!(o.start_next(), None);
    assert_eq!(o.active_jobs(), 3);
    let active = (0..7).filter(|id| is_active(&o, *id)).count();
    assert_eq!(active, 3);
    assert_eq!(o.status(4), Some(DownloadStatus::Pending));
}

#[test]
fn cancel_all_ends_every_job() {
    let mut o = Orchestrator::new(vec![1, 2, 3, 4], 2, 3).unwrap();
    assert_eq!(o.start_next(), Some(1));
    assert_eq!(o.start_next(), Some(2));
    o.handle(1, Event::SpawnSucceeded);
    o.handle(2, Event::SpawnSucceeded);
    assert_eq!(o.handle(1, exit(0)), Action::Nothing);
    o.cancel_all();
    assert!(!o.is_batch_finished());
    assert_eq!(o.start_next(), None);
    assert_eq!(o.handle(2, Event::CancelRequested), Action::Kill);
    assert_eq!(o.handle(3, Event::CancelRequested), Action::Nothing);
    assert_eq!(o.handle(4, Event::DelayElapsed), Action::Nothing);
    assert!(o.is_batch_finished());
    assert_eq!(
        o.snapshot(),
        vec![
            (1, DownloadStatus::Completed { bytes_total: 1000 }),
            (2, DownloadStatus::Cancelled),
            (3, DownloadStatus::Cancelled),
            (4, DownloadStatus::Cancelled),
        ]
    );
    assert_eq!(o.active_jobs(), 0);
}

#[test]
fn a_waiting_job_is_cancelled_at_once() {
    let mut o = Orchestrator::new(vec![1, 2, 3], 1, 3).unwrap();
    assert_eq!(o.start_next(), Some(1));
    assert!(!o.is_cancelled(2));
    o.cancel_one(2);
    assert_eq!(o.status(2), Some(DownloadStatus::Cancelled));
    assert!(!o.is_cancel_requested());
    o.handle(1, Event::SpawnSucceeded);
    o.cancel_one(1);
    assert!(o.is_cancelled(1));
    assert_eq!(o.handle(1, exit(0)), Action::Nothing);
    assert_eq!(o.status(1), Some(DownloadStatus::Cancelled));
    assert_eq!(o.start_next(), Some(3));
    assert_eq!(o.len(), 3);
    assert_eq!(o.id_at(2), 3);
    assert_eq!(o.status_at(2), DownloadStatus::Starting { attempt: 1 });
}

#[test]
fn waiting_jobs_end_when_the_batch_is_cancelled() {
    let mut o = Orchestrator::new(vec![1, 2, 3], 1, 3).unwrap();
    o.start_next();
    o.handle(1, Event::SpawnSucceeded);
    o.end_waiting();
    assert_eq!(o.status(2), Some(DownloadStatus::Pending));
    o.cancel_all();
    o.end_waiting();
    assert_eq!(
        o.snapshot(),
        vec![
            (1, DownloadStatus::Running { attempt: 1, progress: anilink_downloader::status::Progress::new() }),
            (2, DownloadStatus::Cancelled),
            (3, DownloadStatus::Cancelled),
        ]
    );
    assert!(!o.is_batch_finished());
    assert_eq!(o.handle(1, Event::TimeoutElapsed), Action::Kill);
    assert!(o.is_batch_finished());
}

#[test]
fn cancel_one_reaches_one_job() {
    let mut o = Orchestrator::new(vec![1, 2], 2, 3).unwrap();
    o.start_next();
    o.start_next();
    o.handle(1, Event::SpawnSucceeded);
    o.handle(2, Event::SpawnSucceeded);
    o.cancel_one(2);
    o.cancel_one(9);
    assert_eq!(o.handle(1, Event::TimeoutElapsed), Action::KillThenSleep { secs: 2 });
    assert_eq!(o.handle(2, Event::TimeoutElapsed), Action::Kill);
    assert_eq!(o.status(1), Some(DownloadStatus::Starting { attempt: 2 }));
    assert_eq!(o.status(2), Some(DownloadStatus::Cancelled));
    assert_eq!(o.handle(9, Event::TimeoutElapsed), Action::Nothing);
    assert_eq!(o.pause_one(9), Action::Nothing);
    assert_eq!(o.resume_one(9), Action::Nothing);
}

#[test]
fn three_items_two_slots() {
    // A exits 0 at once, B fails twice and then succeeds, C never exits and is cancelled.
    let (a, b, c) = (0usize, 1usize, 2usize);
    let mut o = Orchestrator::new(vec![a, b, c], 2, 3).unwrap();
    assert_eq!(o.start_next(), Some(a));
    assert_eq!(o.start_next(), Some(b));
    assert_eq!(o.start_next(), None);
    o.handle(a, Event::SpawnSucceeded);
    o.handle(b, Event::SpawnSucceeded);
    assert_eq!(o.handle(a, exit(0)), Action::Nothing);
    assert_eq!(o.start_next(), Some(c));
    assert_eq!(o.handle(c, Event::SpawnSucceeded), Action::Nothing);
    for attempt in 1..3u32 {
        assert_eq!(o.status(b), Some(DownloadStatus::Running {
            attempt,
            progress: anilink_downloader::status::Progress::new(),
        }));
        assert_eq!(o.handle(b, exit(1)), Action::Sleep { secs: 2 });
        assert_eq!(o.active_jobs(), 2);
        assert_eq!(o.handle(b, Event::DelayElapsed), Action::Spawn);
        assert_eq!(o.handle(b, Event::SpawnSucceeded), Action::Nothing);
    }
    assert_eq!(o.handle(b, exit(0)), Action::Nothing);
    assert!(!o.is_batch_finished());
    assert!(!o.may_exit());
    o.cancel_all();
    assert!(!o.may_exit());
    assert_eq!(o.handle(c, Event::CancelRequested), Action::Kill);
    assert!(o.may_exit());
    assert_eq!(
        o.snapshot(),
        vec![
            (a, DownloadStatus::Completed { bytes_total: 1000 }),
            (b, DownloadStatus::Completed { bytes_total: 1000 }),
            (c, DownloadStatus::Cancelled),
        ]
    );
    assert!(o.is_batch_finished());
}

#[test]
fn no_retries_means_one_attempt() {
    let mut o = Orchestrator::new(vec![11], 1, 0).unwrap();
    let mut spawns = 0;
    assert_eq!(o.start_next(), Some(11));
    spawns += 1;
    assert_eq!(o.handle(11, Event::SpawnSucceeded), Action::Nothing);
    let mut action = o.handle(11, exit(1));
    while action != Action::Nothing {
        if action == Action::Spawn {
            spawns += 1;
            o.handle(11, Event::SpawnSucceeded);
            action = o.handle(11, exit(1));
        } else {
            action = o.handle(11, Event::DelayElapsed);
        }
    }
    assert_eq!(spawns, 1);
    assert_eq!(o.status(11), Some(DownloadStatus::Failed { reason: FailureReason::ExitCode(1) }));
    assert!(o.is_batch_finished());
}

#[test]
fn output_lines_reach_their_job() {
    let mut o = Orchestrator::new(vec![1, 2], 2, 3).unwrap();
    o.start_next();
    o.start_next();
    o.handle(1, Event::SpawnSucceeded);
    o.output_line(1, "Duration: 00:00:20.00, start", 0, 0);
    o.output_line(1, "x time=00:00:05.00 y", 10_000_000, 512);
    o.output_line(2, "x time=00:00:05.00 y", 10_000_000, 512);
    o.output_line(3, "x time=00:00:05.00 y", 10_000_000, 512);
    assert_eq!(
        o.status(1),
        Some(DownloadStatus::Running {
            attempt: 1,
            progress: anilink_downloader::status::Progress {
                percent: Some(2500),
                speed: Some(500),
                eta_seconds: Some(30),
                bytes_so_far: 512,
            },
        })
    );
    assert_eq!(o.status(2), Some(DownloadStatus::Starting { attempt: 1 }));
}
