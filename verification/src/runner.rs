//! The lifecycle of one job: which status follows which event, and what
//! has to be done to the process.
//!
//! A `JobRunner` never touches a process. It is told what happened
//! (`Event`) and answers with the next thing to do (`Action`); whoever
//! owns the process carries the action out and reports back.

use vstd::prelude::*;
use crate::progress::{
    duration_of, eta_of, percent_of, speed_of, time_of, ProgressParser, ProgressSnapshot,
};
use crate::text::contains_text;
use crate::retry::{decide, decide_spec, Outcome, RetryDecision};
use crate::status::{DownloadStatus, FailureReason, Progress};

verus! {

/// What a job is told.
#[derive(Clone, Copy, Debug, PartialEq, Eq, Structural)]
pub enum Event {
    /// A cancellation, of the batch or of this job, was seen.
    CancelRequested,
    /// The process was started.
    SpawnSucceeded,
    /// The process could not be started.
    SpawnFailed,
    /// The delay before the next attempt is over.
    DelayElapsed,
    /// The process left with `code`; `bytes_total` is the size of what it
    /// wrote.
    ProcessExited { code: i32, bytes_total: u64 },
    /// Waiting for the process, or reading its output, failed.
    WaitFailed,
    /// The attempt's time limit is over.
    TimeoutElapsed,
}

/// What is to be done next for a job.
#[derive(Clone, Copy, Debug, PartialEq, Eq, Structural)]
pub enum Action {
    /// Nothing; keep waiting for the next event.
    Nothing,
    /// Start the process of the current attempt.
    Spawn,
    /// Wait `secs` seconds, then report `DelayElapsed`.
    Sleep { secs: u64 },
    /// End the process and what it started.
    Kill,
    /// End the process, then wait as for `Sleep`.
    KillThenSleep { secs: u64 },
    /// Hold the process in place.
    Suspend,
    /// Let the held process go on.
    Resume,
}

/// The state of one job.
#[derive(Clone, Copy, Debug, PartialEq, Eq, Structural)]
pub struct JobRunner {
    pub id: usize,
    pub max_retries: u32,
    pub status: DownloadStatus,
    /// In `Starting`: the delay before the attempt is still running.
    pub awaiting_delay: bool,
    /// This job alone was asked to stop.
    pub cancel_requested: bool,
    /// What the output of the current attempt has told so far.
    pub parser: ProgressParser,
    /// The figures shown last.
    pub progress: Progress,
}

/// The figures of a snapshot, with the size written so far.
pub open spec fn progress_from(s: ProgressSnapshot, bytes_so_far: u64) -> Progress {
    Progress {
        percent: s.percent,
        speed: Some(s.speed),
        eta_seconds: s.eta_seconds,
        bytes_so_far,
    }
}

/// Which of the events that are ready at once is taken: a cancellation
/// before a timeout, a timeout before the end of the process.
pub open spec fn first_ready(cancel: bool, timeout: bool, ended: Option<Event>) -> Option<Event> {
    if cancel {
        Some(Event::CancelRequested)
    } else if timeout {
        Some(Event::TimeoutElapsed)
    } else {
        ended
    }
}

/// Picks the event to take among those that are ready at once.
pub fn select_event(cancel: bool, timeout: bool, ended: Option<Event>) -> (r: Option<Event>)
    ensures
        r == first_ready(cancel, timeout, ended),
{
    if cancel {
        Some(Event::CancelRequested)
    } else if timeout {
        Some(Event::TimeoutElapsed)
    } else {
        ended
    }
}

impl JobRunner {
    /// A job that waits for its slot.
    pub open spec fn pending(id: usize, max_retries: u32) -> JobRunner {
        JobRunner {
            id,
            max_retries,
            status: DownloadStatus::Pending,
            awaiting_delay: false,
            cancel_requested: false,
            parser: ProgressParser::fresh(),
            progress: Progress::unknown(),
        }
    }

    /// What always holds of a job: a delay is awaited only before an
    /// attempt, and attempts count from one.
    pub open spec fn wf(self) -> bool {
        &&& self.awaiting_delay ==> self.status is Starting
        &&& match self.status.attempt_of() {
            Some(a) => a >= 1,
            None => true,
        }
    }

    /// Whether a process exists once `event` has been reported.
    pub open spec fn process_alive_after(self, event: Event) -> bool {
        match self.status {
            DownloadStatus::Starting { .. } => !self.awaiting_delay && event is SpawnSucceeded,
            DownloadStatus::Running { .. } | DownloadStatus::Paused { .. } => !(event
                is ProcessExited || event is WaitFailed),
            _ => false,
        }
    }

    /// The job with `status`.
    pub open spec fn with_status(self, status: DownloadStatus) -> JobRunner {
        JobRunner { status, awaiting_delay: false, ..self }
    }

    /// The job after a failed attempt number `attempt`, as the retry
    /// policy rules: either the next attempt is announced and its delay
    /// awaited, or the job ends in `last`.
    pub open spec fn after_failure(
        self,
        attempt: u32,
        outcome: Outcome,
        last: DownloadStatus,
        kill: bool,
    ) -> (JobRunner, Action) {
        match decide_spec(attempt, self.max_retries, outcome) {
            RetryDecision::Retry { delay_secs } => (
                JobRunner {
                    status: DownloadStatus::Starting { attempt: (attempt + 1) as u32 },
                    awaiting_delay: true,
                    ..self
                },
                if kill {
                    Action::KillThenSleep { secs: delay_secs }
                } else {
                    Action::Sleep { secs: delay_secs }
                },
            ),
            RetryDecision::GiveUp => (
                self.with_status(last),
                if kill {
                    Action::Kill
                } else {
                    Action::Nothing
                },
            ),
        }
    }

    /// The job after `event`, and what is to be done. `batch_cancelled`
    /// says whether the whole batch was asked to stop.
    ///
    /// A job that has ended stays as it is. A cancellation, however it
    /// is learnt, goes before the event itself: the job ends in
    /// `Cancelled`, and its process, if one exists, is to be ended. A job
    /// without a slot reacts to nothing else.
    ///
    /// Before an attempt the job waits for the delay, then has the
    /// process started; a process that starts makes the job `Running`, one
    /// that does not ends it in `Failed`. A running job ends in
    /// `Completed` when its process leaves with code zero; any other exit,
    /// an I/O error and the time limit are failures, which the retry
    /// policy rules. A held job is not timed, and its process, should it
    /// leave all the same, is not started again.
    pub open spec fn stepped(self, batch_cancelled: bool, event: Event) -> (JobRunner, Action) {
        if self.status.terminal() {
            (self, Action::Nothing)
        } else if batch_cancelled || self.cancel_requested || event is CancelRequested {
            (
                self.with_status(DownloadStatus::Cancelled),
                if self.process_alive_after(event) {
                    Action::Kill
                } else {
                    Action::Nothing
                },
            )
        } else {
            match self.status {
                DownloadStatus::Starting { attempt } => {
                    if self.awaiting_delay {
                        if event is DelayElapsed {
                            (JobRunner { awaiting_delay: false, ..self }, Action::Spawn)
                        } else {
                            (self, Action::Nothing)
                        }
                    } else {
                        match event {
                            Event::SpawnSucceeded => (
                                JobRunner {
                                    status: DownloadStatus::Running {
                                        attempt,
                                        progress: Progress::unknown(),
                                    },
                                    parser: ProgressParser::fresh(),
                                    progress: Progress::unknown(),
                                    ..self
                                },
                                Action::Nothing,
                            ),
                            Event::SpawnFailed => self.after_failure(
                                attempt,
                                Outcome::ProcessSpawnFailed,
                                DownloadStatus::Failed { reason: FailureReason::SpawnFailed },
                                false,
                            ),
                            _ => (self, Action::Nothing),
                        }
                    }
                },
                DownloadStatus::Running { attempt, .. } => match event {
                    Event::ProcessExited { code, bytes_total } => if code == 0 {
                        (self.with_status(DownloadStatus::Completed { bytes_total }), Action::Nothing)
                    } else {
                        self.after_failure(
                            attempt,
                            Outcome::ProcessExitedNonZero(code),
                            DownloadStatus::Failed { reason: FailureReason::ExitCode(code) },
                            false,
                        )
                    },
                    Event::WaitFailed => self.after_failure(
                        attempt,
                        Outcome::WaitIoError,
                        DownloadStatus::Failed { reason: FailureReason::IoError },
                        false,
                    ),
                    Event::TimeoutElapsed => self.after_failure(
                        attempt,
                        Outcome::AttemptTimedOut,
                        DownloadStatus::TimedOut,
                        true,
                    ),
                    _ => (self, Action::Nothing),
                },
                DownloadStatus::Paused { .. } => match event {
                    Event::ProcessExited { code, bytes_total } => if code == 0 {
                        (self.with_status(DownloadStatus::Completed { bytes_total }), Action::Nothing)
                    } else {
                        (
                            self.with_status(
                                DownloadStatus::Failed { reason: FailureReason::ExitCode(code) },
                            ),
                            Action::Nothing,
                        )
                    },
                    Event::WaitFailed => (
                        self.with_status(
                            DownloadStatus::Failed { reason: FailureReason::IoError },
                        ),
                        Action::Nothing,
                    ),
                    _ => (self, Action::Nothing),
                },
                _ => (self, Action::Nothing),
            }
        }
    }

    /// The job once it has its slot: the first attempt is announced and
    /// its process is to be started. Only a waiting job is started.
    pub open spec fn started(self) -> (JobRunner, Action) {
        if self.status is Pending {
            (
                JobRunner {
                    status: DownloadStatus::Starting { attempt: 1 },
                    awaiting_delay: false,
                    ..self
                },
                Action::Spawn,
            )
        } else {
            (self, Action::Nothing)
        }
    }

    /// The job after a request to hold it: a running job is held, any
    /// other stays as it is.
    pub open spec fn paused(self) -> (JobRunner, Action) {
        match self.status {
            DownloadStatus::Running { attempt, .. } => (
                JobRunner { status: DownloadStatus::Paused { attempt }, ..self },
                Action::Suspend,
            ),
            _ => (self, Action::Nothing),
        }
    }

    /// The job after a request to let it go on: a held job runs again,
    /// with the attempt number and the figures it had; any other stays as
    /// it is.
    pub open spec fn resumed(self) -> (JobRunner, Action) {
        match self.status {
            DownloadStatus::Paused { attempt } => (
                JobRunner {
                    status: DownloadStatus::Running { attempt, progress: self.progress },
                    ..self
                },
                Action::Resume,
            ),
            _ => (self, Action::Nothing),
        }
    }

    /// The job after a line of output, read `elapsed` microseconds after
    /// the attempt began, with `bytes_so_far` written. A running job shows
    /// what the line tells; a held job notes it and shows nothing new; any
    /// other job ignores the line.
    pub open spec fn after_line(self, line: Seq<char>, elapsed: u64, bytes_so_far: u64)
        -> JobRunner {
        match self.status {
            DownloadStatus::Running { attempt, .. } => {
                let (parser, told) = self.parser.fed(line, elapsed);
                match told {
                    Some(s) => JobRunner {
                        parser,
                        progress: progress_from(s, bytes_so_far),
                        status: DownloadStatus::Running {
                            attempt,
                            progress: progress_from(s, bytes_so_far),
                        },
                        ..self
                    },
                    None => JobRunner { parser, ..self },
                }
            },
            DownloadStatus::Paused { .. } => JobRunner {
                parser: self.parser.fed(line, elapsed).0,
                ..self
            },
            _ => self,
        }
    }

    /// A job that waits for its slot.
    pub fn new(id: usize, max_retries: u32) -> (r: JobRunner)
        ensures
            r == JobRunner::pending(id, max_retries),
            r.wf(),
    {
        JobRunner {
            id,
            max_retries,
            status: DownloadStatus::Pending,
            awaiting_delay: false,
            cancel_requested: false,
            parser: ProgressParser::new(),
            progress: Progress::new(),
        }
    }

    fn fail(&mut self, attempt: u32, outcome: Outcome, last: DownloadStatus, kill: bool) -> (a:
        Action)
        requires
            attempt >= 1,
            last.terminal(),
        ensures
            (*final(self), a) == old(self).after_failure(attempt, outcome, last, kill),
            final(self).wf(),
    {
        match decide(attempt, self.max_retries, outcome) {
            RetryDecision::Retry { delay_secs } => {
                self.status = DownloadStatus::Starting { attempt: attempt + 1 };
                self.awaiting_delay = true;
                if kill {
                    Action::KillThenSleep { secs: delay_secs }
                } else {
                    Action::Sleep { secs: delay_secs }
                }
            },
            RetryDecision::GiveUp => {
                self.status = last;
                self.awaiting_delay = false;
                if kill {
                    Action::Kill
                } else {
                    Action::Nothing
                }
            },
        }
    }

    fn alive_after(&self, event: Event) -> (b: bool)
        ensures
            b == self.process_alive_after(event),
    {
        match self.status {
            DownloadStatus::Starting { .. } => !self.awaiting_delay && matches!(
                event,
                Event::SpawnSucceeded
            ),
            DownloadStatus::Running { .. } | DownloadStatus::Paused { .. } => match event {
                Event::ProcessExited { .. } => false,
                Event::WaitFailed => false,
                _ => true,
            },
            _ => false,
        }
    }

    /// Takes `event` and says what is to be done.
    pub fn step(&mut self, batch_cancelled: bool, event: Event) -> (a: Action)
        requires
            old(self).wf(),
        ensures
            (*final(self), a) == old(self).stepped(batch_cancelled, event),
            final(self).wf(),
    {
        if self.status.is_terminal() {
            return Action::Nothing;
        }
        if batch_cancelled || self.cancel_requested || matches!(event, Event::CancelRequested) {
            let kill = self.alive_after(event);
            self.status = DownloadStatus::Cancelled;
            self.awaiting_delay = false;
            return if kill {
                Action::Kill
            } else {
                Action::Nothing
            };
        }
        match self.status {
            DownloadStatus::Starting { attempt } => {
                if self.awaiting_delay {
                    match event {
                        Event::DelayElapsed => {
                            self.awaiting_delay = false;
                            Action::Spawn
                        },
                        _ => Action::Nothing,
                    }
                } else {
                    match event {
                        Event::SpawnSucceeded => {
                            self.status = DownloadStatus::Running {
                                attempt,
                                progress: Progress::new(),
                            };
                            self.parser = ProgressParser::new();
                            self.progress = Progress::new();
                            Action::Nothing
                        },
                        Event::SpawnFailed => self.fail(
                            attempt,
                            Outcome::ProcessSpawnFailed,
                            DownloadStatus::Failed { reason: FailureReason::SpawnFailed },
                            false,
                        ),
                        _ => Action::Nothing,
                    }
                }
            },
            DownloadStatus::Running { attempt, .. } => match event {
                Event::ProcessExited { code, bytes_total } => {
                    if code == 0 {
                        self.status = DownloadStatus::Completed { bytes_total };
                        self.awaiting_delay = false;
                        Action::Nothing
                    } else {
                        self.fail(
                            attempt,
                            Outcome::ProcessExitedNonZero(code),
                            DownloadStatus::Failed { reason: FailureReason::ExitCode(code) },
                            false,
                        )
                    }
                },
                Event::WaitFailed => self.fail(
                    attempt,
                    Outcome::WaitIoError,
                    DownloadStatus::Failed { reason: FailureReason::IoError },
                    false,
                ),
                Event::TimeoutElapsed => self.fail(
                    attempt,
                    Outcome::AttemptTimedOut,
                    DownloadStatus::TimedOut,
                    true,
                ),
                _ => Action::Nothing,
            },
            DownloadStatus::Paused { .. } => match event {
                Event::ProcessExited { code, bytes_total } => {
                    if code == 0 {
                        self.status = DownloadStatus::Completed { bytes_total };
                    } else {
                        self.status = DownloadStatus::Failed {
                            reason: FailureReason::ExitCode(code),
                        };
                    }
                    self.awaiting_delay = false;
                    Action::Nothing
                },
                Event::WaitFailed => {
                    self.status = DownloadStatus::Failed { reason: FailureReason::IoError };
                    self.awaiting_delay = false;
                    Action::Nothing
                },
                _ => Action::Nothing,
            },
            _ => Action::Nothing,
        }
    }

    /// Gives the job its slot.
    pub fn start(&mut self) -> (a: Action)
        requires
            old(self).wf(),
        ensures
            (*final(self), a) == old(self).started(),
            final(self).wf(),
    {
        match self.status {
            DownloadStatus::Pending => {
                self.status = DownloadStatus::Starting { attempt: 1 };
                self.awaiting_delay = false;
                Action::Spawn
            },
            _ => Action::Nothing,
        }
    }

    /// Asks for the job to be held.
    pub fn pause(&mut self) -> (a: Action)
        requires
            old(self).wf(),
        ensures
            (*final(self), a) == old(self).paused(),
            final(self).wf(),
    {
        match self.status {
            DownloadStatus::Running { attempt, .. } => {
                self.status = DownloadStatus::Paused { attempt };
                Action::Suspend
            },
            _ => Action::Nothing,
        }
    }

    /// Asks for the held job to go on.
    pub fn resume(&mut self) -> (a: Action)
        requires
            old(self).wf(),
        ensures
            (*final(self), a) == old(self).resumed(),
            final(self).wf(),
    {
        match self.status {
            DownloadStatus::Paused { attempt } => {
                self.status = DownloadStatus::Running { attempt, progress: self.progress };
                Action::Resume
            },
            _ => Action::Nothing,
        }
    }

    /// Notes that this job alone is to stop; the job ends at its next
    /// event.
    pub fn request_cancel(&mut self)
        ensures
            *final(self) == (JobRunner { cancel_requested: true, ..*old(self) }),
    {
        self.cancel_requested = true;
    }

    /// Takes one line of the process's output.
    pub fn output_line(&mut self, line: &str, elapsed: u64, bytes_so_far: u64)
        requires
            old(self).wf(),
        ensures
            *final(self) == old(self).after_line(line@, elapsed, bytes_so_far),
            final(self).wf(),
    {
        match self.status {
            DownloadStatus::Running { attempt, .. } => {
                let mut parser = self.parser;
                let told = parser.feed(line, elapsed);
                self.parser = parser;
                match told {
                    Some(s) => {
                        let progress = Progress {
                            percent: s.percent,
                            speed: Some(s.speed),
                            eta_seconds: s.eta_seconds,
                            bytes_so_far,
                        };
                        self.progress = progress;
                        self.status = DownloadStatus::Running { attempt, progress };
                    },
                    None => {},
                }
            },
            DownloadStatus::Paused { .. } => {
                let mut parser = self.parser;
                let _ = parser.feed(line, elapsed);
                self.parser = parser;
            },
            _ => {},
        }
    }
}

// ---------------------------------------------------------------------
// What holds of every job
// ---------------------------------------------------------------------
/// Every change of status that an event brings is a step of the
/// lifecycle, and a job that has ended neither changes nor asks for
/// anything: no terminal status is left, and none is entered twice.
pub proof fn law_step_follows_lifecycle(job: JobRunner, batch_cancelled: bool, event: Event)
    requires
        job.wf(),
    ensures
        ({
            let (next, action) = job.stepped(batch_cancelled, event);
            &&& next.status == job.status || job.status.may_become(next.status)
            &&& job.status.terminal() ==> next == job && action is Nothing
            &&& next.wf()
            &&& next.id == job.id
        }),
{
}

/// Admission, holding, letting go and a line of output change the status
/// along the lifecycle too, and leave a job that has ended as it is.
pub proof fn law_controls_follow_lifecycle(
    job: JobRunner,
    line: Seq<char>,
    elapsed: u64,
    bytes_so_far: u64,
)
    requires
        job.wf(),
    ensures
        job.status == job.started().0.status || job.status.may_become(job.started().0.status),
        job.status == job.paused().0.status || job.status.may_become(job.paused().0.status),
        job.status == job.resumed().0.status || job.status.may_become(job.resumed().0.status),
        job.status == job.after_line(line, elapsed, bytes_so_far).status || job.status.may_become(
            job.after_line(line, elapsed, bytes_so_far).status,
        ),
        job.status.terminal() ==> job.started().0 == job && job.paused().0 == job
            && job.resumed().0 == job && job.after_line(line, elapsed, bytes_so_far) == job,
{
}

/// Holding a running job gives `Paused`; letting it go on gives `Running`
/// with the attempt number it had before, and the figures it showed.
/// Holding a job that does not run changes nothing.
pub proof fn law_pause_resume(job: JobRunner)
    ensures
        job.status is Running ==> {
            &&& job.paused().0.status is Paused
            &&& job.paused().1 is Suspend
            &&& job.paused().0.resumed().0.status is Running
            &&& job.paused().0.resumed().0.status.attempt_of() == job.status.attempt_of()
            &&& job.paused().0.resumed().0.status->Running_progress == job.progress
            &&& job.paused().0.resumed().1 is Resume
        },
        !(job.status is Running) ==> job.paused() == (job, Action::Nothing),
        !(job.status is Paused) ==> job.resumed() == (job, Action::Nothing),
{
}

/// Once a cancellation is known, whatever is reported next ends a job
/// that has not ended yet in `Cancelled`; the process is to be ended
/// exactly where one exists.
pub proof fn law_cancel_goes_first(job: JobRunner, batch_cancelled: bool, event: Event)
    requires
        !job.status.terminal(),
        batch_cancelled || job.cancel_requested || event is CancelRequested,
    ensures
        job.stepped(batch_cancelled, event).0.status is Cancelled,
        job.stepped(batch_cancelled, event).1 is Kill <==> job.process_alive_after(event),
        job.stepped(batch_cancelled, event).1 is Kill || job.stepped(batch_cancelled, event).1
            is Nothing,
{
}

/// A process that cannot be started ends the job at once. A non-zero
/// exit, a timeout or an I/O error of a running job leads to the next
/// attempt exactly while the attempt number is below the limit; at the
/// limit the job ends in `Failed`, or in `TimedOut` after a timeout. An
/// exit with code zero ends the job in `Completed`.
pub proof fn law_attempts_are_bounded(job: JobRunner, event: Event)
    requires
        job.wf(),
        !job.cancel_requested,
    ensures
        job.status is Starting && !job.awaiting_delay && event is SpawnFailed ==> job.stepped(
            false,
            event,
        ).0.status == (DownloadStatus::Failed { reason: FailureReason::SpawnFailed }),
        match (job.status, event) {
            (DownloadStatus::Running { attempt, .. }, Event::ProcessExited { code, bytes_total }) => {
                let next = job.stepped(false, event).0.status;
                if code == 0 {
                    next == (DownloadStatus::Completed { bytes_total })
                } else if attempt < job.max_retries {
                    next == (DownloadStatus::Starting { attempt: (attempt + 1) as u32 })
                } else {
                    next == (DownloadStatus::Failed { reason: FailureReason::ExitCode(code) })
                }
            },
            (DownloadStatus::Running { attempt, .. }, Event::WaitFailed) => {
                let next = job.stepped(false, event).0.status;
                if attempt < job.max_retries {
                    next == (DownloadStatus::Starting { attempt: (attempt + 1) as u32 })
                } else {
                    next == (DownloadStatus::Failed { reason: FailureReason::IoError })
                }
            },
            (DownloadStatus::Running { attempt, .. }, Event::TimeoutElapsed) => {
                let next = job.stepped(false, event).0.status;
                if attempt < job.max_retries {
                    next == (DownloadStatus::Starting { attempt: (attempt + 1) as u32 })
                } else {
                    next is TimedOut
                }
            },
            _ => true,
        },
{
}

/// A running job that has not seen a total length yet, given a line that
/// announces it and then a line that reports a position, shows that
/// position's share of the total, with the speed and the time left that
/// follow from it.
pub proof fn law_running_job_shows_the_share(
    job: JobRunner,
    first: Seq<char>,
    whole: u64,
    second: Seq<char>,
    reached: u64,
    first_elapsed: u64,
    first_bytes: u64,
    elapsed: u64,
    bytes_so_far: u64,
)
    requires
        job.status is Running,
        job.parser.total_duration is None,
        contains_text(first, "Duration"@),
        duration_of(first) == Some(whole),
        !contains_text(second, "Duration"@),
        time_of(second) == Some(reached),
    ensures
        job.after_line(first, first_elapsed, first_bytes).status == job.status,
        job.after_line(first, first_elapsed, first_bytes).after_line(
            second,
            elapsed,
            bytes_so_far,
        ).status == (DownloadStatus::Running {
            attempt: job.status->Running_attempt,
            progress: Progress {
                percent: Some(percent_of(reached, whole)),
                speed: Some(speed_of(reached, elapsed)),
                eta_seconds: eta_of(reached, whole, elapsed),
                bytes_so_far,
            },
        }),
{
}

} // verus!
