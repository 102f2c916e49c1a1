//! The batch: a bounded number of slots, one job per item, and the
//! controls that the presentation layer calls.
//!
//! `Orchestrator` holds the state of every job and decides; it starts no
//! process and never waits. Its owner keeps it behind a lock, hands it each
//! event of each job and carries out what it answers.

use vstd::prelude::*;
use crate::items::{LinkInfo, Settings};
use crate::runner::{Action, Event, JobRunner};
use crate::status::{
    count_active, lemma_count_active_bound, lemma_count_active_update, lemma_position_of,
    position_of, DownloadStatus, StatusTable,
};

verus! {

/// The ids of `jobs`, in order.
pub open spec fn ids_of(jobs: Seq<JobRunner>) -> Seq<usize> {
    Seq::new(jobs.len(), |i: int| jobs[i].id)
}

/// The statuses of `jobs`, in order.
pub open spec fn statuses_of(jobs: Seq<JobRunner>) -> Seq<DownloadStatus> {
    Seq::new(jobs.len(), |i: int| jobs[i].status)
}

/// The first job of `jobs` that waits for a slot.
pub open spec fn first_pending(jobs: Seq<JobRunner>) -> Option<int>
    decreases jobs.len(),
{
    if jobs.len() == 0 {
        None
    } else {
        match first_pending(jobs.drop_last()) {
            Some(i) => Some(i),
            None => if jobs.last().status is Pending {
                Some(jobs.len() - 1)
            } else {
                None
            },
        }
    }
}

/// `first_pending` finds a waiting job exactly where one exists, and the
/// first of them.
pub proof fn lemma_first_pending(jobs: Seq<JobRunner>)
    ensures
        match first_pending(jobs) {
            Some(i) => 0 <= i < jobs.len() && jobs[i].status is Pending && forall|j: int|
                0 <= j < i ==> !(jobs[j].status is Pending),
            None => forall|j: int| 0 <= j < jobs.len() ==> !(jobs[j].status is Pending),
        },
    decreases jobs.len(),
{
    if jobs.len() > 0 {
        lemma_first_pending(jobs.drop_last());
        assert forall|j: int| 0 <= j < jobs.len() - 1 implies jobs.drop_last()[j] == jobs[j] by {}
    }
}

/// The batch as a value: its jobs in order, the number of slots, and
/// whether all of it was asked to stop.
pub struct Batch {
    pub jobs: Seq<JobRunner>,
    pub max_parallel: nat,
    pub cancel_requested: bool,
}

impl Batch {
    /// How many jobs hold a slot.
    pub open spec fn active(self) -> nat {
        count_active(statuses_of(self.jobs))
    }

    /// What always holds of a batch: there is a slot, no more jobs hold
    /// one than there are slots, each id stands once, and each job is
    /// well-formed.
    pub open spec fn wf(self) -> bool {
        &&& self.max_parallel >= 1
        &&& self.active() <= self.max_parallel
        &&& ids_of(self.jobs).no_duplicates()
        &&& forall|i: int| 0 <= i < self.jobs.len() ==> (#[trigger] self.jobs[i]).wf()
    }

    /// Where the job `id` stands.
    pub open spec fn index_of(self, id: usize) -> Option<int> {
        position_of(ids_of(self.jobs), id)
    }

    /// The status of the job `id`.
    pub open spec fn status_of(self, id: usize) -> Option<DownloadStatus> {
        match self.index_of(id) {
            Some(i) => Some(self.jobs[i].status),
            None => None,
        }
    }

    /// Whether the job `id` was asked to stop, alone or with all of the
    /// batch.
    pub open spec fn cancel_pending(self, id: usize) -> bool {
        self.cancel_requested || match self.index_of(id) {
            Some(i) => self.jobs[i].cancel_requested,
            None => false,
        }
    }

    /// Every job has ended; true of a batch without jobs.
    pub open spec fn finished(self) -> bool {
        forall|i: int| 0 <= i < self.jobs.len() ==> (#[trigger] self.jobs[i]).status.terminal()
    }

    /// The batch with job number `i` replaced.
    pub open spec fn with_job(self, i: int, job: JobRunner) -> Batch {
        Batch { jobs: self.jobs.update(i, job), ..self }
    }

    /// The batch after the first waiting job was given a slot, and that
    /// job's id. Nothing happens where no slot is free, no job waits, or
    /// the batch was asked to stop.
    pub open spec fn started_next(self) -> (Batch, Option<usize>) {
        if self.cancel_requested || self.active() >= self.max_parallel {
            (self, None)
        } else {
            match first_pending(self.jobs) {
                Some(i) => (self.with_job(i, self.jobs[i].started().0), Some(self.jobs[i].id)),
                None => (self, None),
            }
        }
    }

    /// The batch after `event` was reported for the job `id`, and what is
    /// to be done for that job. An unknown id changes nothing.
    pub open spec fn handled(self, id: usize, event: Event) -> (Batch, Action) {
        match self.index_of(id) {
            Some(i) => {
                let (job, action) = self.jobs[i].stepped(self.cancel_requested, event);
                (self.with_job(i, job), action)
            },
            None => (self, Action::Nothing),
        }
    }

    /// The batch after a line of output of the job `id`.
    pub open spec fn after_line(self, id: usize, line: Seq<char>, elapsed: u64, bytes_so_far: u64)
        -> Batch {
        match self.index_of(id) {
            Some(i) => self.with_job(i, self.jobs[i].after_line(line, elapsed, bytes_so_far)),
            None => self,
        }
    }

    /// The batch after all of it was asked to stop.
    pub open spec fn cancelled_all(self) -> Batch {
        Batch { cancel_requested: true, ..self }
    }

    /// The batch after the job `id` alone was asked to stop: a job that
    /// waits for its slot ends at once, any other ends when it next
    /// reports an event.
    pub open spec fn cancelled_one(self, id: usize) -> Batch {
        match self.index_of(id) {
            Some(i) => self.with_job(
                i,
                if self.jobs[i].status is Pending {
                    self.jobs[i].with_status(DownloadStatus::Cancelled)
                } else {
                    JobRunner { cancel_requested: true, ..self.jobs[i] }
                },
            ),
            None => self,
        }
    }

    /// The batch after the job `id` was asked to hold.
    pub open spec fn paused_one(self, id: usize) -> (Batch, Action) {
        match self.index_of(id) {
            Some(i) => (self.with_job(i, self.jobs[i].paused().0), self.jobs[i].paused().1),
            None => (self, Action::Nothing),
        }
    }

    /// The batch after the job `id` was asked to go on.
    pub open spec fn resumed_one(self, id: usize) -> (Batch, Action) {
        match self.index_of(id) {
            Some(i) => (self.with_job(i, self.jobs[i].resumed().0), self.jobs[i].resumed().1),
            None => (self, Action::Nothing),
        }
    }

    /// The batch after waiting jobs were started one by one, at most `n`
    /// of them and as long as `started_next` starts one, with the ids of
    /// the jobs started added to `ids`.
    pub open spec fn filled(self, n: nat, ids: Seq<usize>) -> (Batch, Seq<usize>)
        decreases n,
    {
        if n == 0 {
            (self, ids)
        } else {
            match self.started_next().1 {
                Some(id) => self.started_next().0.filled((n - 1) as nat, ids.push(id)),
                None => (self, ids),
            }
        }
    }

    /// The batch after job number `i` was held if it ran, or let go if
    /// it was held.
    pub open spec fn toggled_at(self, i: int) -> (Batch, Action) {
        if self.jobs[i].status is Paused {
            (self.with_job(i, self.jobs[i].resumed().0), self.jobs[i].resumed().1)
        } else {
            (self.with_job(i, self.jobs[i].paused().0), self.jobs[i].paused().1)
        }
    }

    /// Some job is held.
    pub open spec fn any_paused(self) -> bool {
        exists|i: int| 0 <= i < self.jobs.len() && (#[trigger] self.jobs[i]).status is Paused
    }

    /// The batch after each of the first `n` jobs was asked to go on
    /// (`resume`) or to hold.
    pub open spec fn all_set(self, n: nat, resume: bool) -> Batch
        decreases n,
    {
        if n == 0 {
            self
        } else {
            let before = self.all_set((n - 1) as nat, resume);
            if n <= before.jobs.len() {
                before.with_job(
                    n - 1,
                    if resume {
                        before.jobs[n - 1].resumed().0
                    } else {
                        before.jobs[n - 1].paused().0
                    },
                )
            } else {
                before
            }
        }
    }

    /// The batch after each of the first `n` jobs that waits for a slot
    /// has seen the request to stop, if all of the batch was asked to.
    pub open spec fn waiting_ended(self, n: nat) -> Batch
        decreases n,
    {
        if n == 0 {
            self
        } else {
            let before = self.waiting_ended((n - 1) as nat);
            if n <= before.jobs.len() && before.jobs[n - 1].status is Pending
                && before.cancel_requested {
                before.with_job(n - 1, before.jobs[n - 1].with_status(DownloadStatus::Cancelled))
            } else {
                before
            }
        }
    }

    /// The batch after each of the first `n` jobs has seen the request to
    /// stop.
    pub open spec fn after_all_saw_cancel(self, n: nat) -> Batch
        decreases n,
    {
        if n == 0 {
            self
        } else {
            let before = self.after_all_saw_cancel((n - 1) as nat);
            if n <= before.jobs.len() {
                before.with_job(
                    n - 1,
                    before.jobs[n - 1].stepped(before.cancel_requested, Event::CancelRequested).0,
                )
            } else {
                before
            }
        }
    }
}

/// Replacing a job by one of the same id changes the count of held slots
/// by that job alone and keeps the ids.
pub proof fn lemma_with_job(b: Batch, i: int, job: JobRunner)
    requires
        0 <= i < b.jobs.len(),
        job.id == b.jobs[i].id,
    ensures
        ids_of(b.with_job(i, job).jobs) == ids_of(b.jobs),
        statuses_of(b.with_job(i, job).jobs) == statuses_of(b.jobs).update(i, job.status),
        b.with_job(i, job).active() + (if b.jobs[i].status.active() {
            1nat
        } else {
            0nat
        }) == b.active() + (if job.status.active() {
            1nat
        } else {
            0nat
        }),
{
    assert(ids_of(b.with_job(i, job).jobs) =~= ids_of(b.jobs));
    assert(statuses_of(b.with_job(i, job).jobs) =~= statuses_of(b.jobs).update(i, job.status));
    lemma_count_active_update(statuses_of(b.jobs), i, job.status);
}

/// The batch and its table of statuses. The fields are private: a value
/// is made by `new` and changed by the methods, which keep it well-formed.
pub struct Orchestrator {
    runners: Vec<JobRunner>,
    table: StatusTable,
    max_parallel: usize,
    in_use: usize,
    cancel_requested: bool,
}

impl View for Orchestrator {
    type V = Batch;

    closed spec fn view(&self) -> Batch {
        Batch {
            jobs: self.runners@,
            max_parallel: self.max_parallel as nat,
            cancel_requested: self.cancel_requested,
        }
    }
}

impl Orchestrator {
    /// The batch is well-formed, the table shows the status of each job,
    /// and the count of held slots is right.
    pub closed spec fn wf(&self) -> bool {
        &&& self@.wf()
        &&& self.table.ids() == ids_of(self.runners@)
        &&& self.table.statuses() == statuses_of(self.runners@)
        &&& self.in_use == self@.active()
    }

    /// The batch that a well-formed orchestrator shows is well-formed, so
    /// that what holds of every well-formed batch holds of it.
    pub proof fn lemma_view_is_well_formed(&self)
        requires
            self.wf(),
        ensures
            self@.wf(),
    {
    }

    /// A batch of one waiting job per id, with `max_parallel` slots; none
    /// if there is no slot or an id stands twice.
    pub fn new(ids: Vec<usize>, max_parallel: usize, max_retries: u32) -> (r: Option<Orchestrator>)
        ensures
            r is Some <==> max_parallel >= 1 && ids@.no_duplicates(),
            r matches Some(o) ==> {
                &&& o.wf()
                &&& o@.wf()
                &&& o@.max_parallel == max_parallel
                &&& !o@.cancel_requested
                &&& o@.active() == 0
                &&& o@.jobs.len() == ids@.len()
                &&& forall|i: int|
                    0 <= i < ids@.len() ==> o@.jobs[i] == JobRunner::pending(ids@[i], max_retries)
            },
    {
        if max_parallel == 0 {
            return None;
        }
        let mut runners: Vec<JobRunner> = Vec::new();
        let mut i: usize = 0;
        while i < ids.len()
            invariant
                i <= ids@.len(),
                runners@.len() == i,
                forall|k: int|
                    0 <= k < i ==> runners@[k] == JobRunner::pending(ids@[k], max_retries),
            decreases ids@.len() - i,
        {
            runners.push(JobRunner::new(ids[i], max_retries));
            i += 1;
        }
        let ghost given = ids@;
        match StatusTable::new(ids) {
            Some(table) => {
                proof {
                    assert(ids_of(runners@) =~= given);
                    assert(table.statuses() =~= statuses_of(runners@));
                    lemma_none_active(table.statuses());
                }
                Some(Orchestrator { runners, table, max_parallel, in_use: 0, cancel_requested: false })
            },
            None => None,
        }
    }

    /// A batch of one waiting job per item, run as `settings` say: with
    /// as many slots as downloads may run at a time, and the attempt limit
    /// of the settings. None if the settings allow no download at a time
    /// or two items share an id.
    pub fn for_items(items: &Vec<LinkInfo>, settings: &Settings) -> (r: Option<Orchestrator>)
        ensures
            r is Some <==> settings.parallel_downloads >= 1 && Seq::new(
                items@.len(),
                |i: int| items@[i].id,
            ).no_duplicates(),
            r matches Some(o) ==> {
                &&& o.wf()
                &&& o@.wf()
                &&& o@.max_parallel == settings.parallel_downloads
                &&& !o@.cancel_requested
                &&& o@.active() == 0
                &&& o@.jobs.len() == items@.len()
                &&& forall|i: int|
                    0 <= i < items@.len() ==> o@.jobs[i] == JobRunner::pending(
                        items@[i].id,
                        settings.retries,
                    )
            },
    {
        let mut ids: Vec<usize> = Vec::new();
        let mut i: usize = 0;
        while i < items.len()
            invariant
                i <= items@.len(),
                ids@ == Seq::new(i as nat, |k: int| items@[k].id),
            decreases items@.len() - i,
        {
            ids.push(items[i].id);
            i += 1;
            assert(ids@ =~= Seq::new(i as nat, |k: int| items@[k].id));
        }
        Orchestrator::new(ids, settings.parallel_downloads, settings.retries)
    }

    fn replace(&mut self, i: usize, job: JobRunner)
        requires
            old(self).wf(),
            i < old(self).runners@.len(),
            job.id == old(self).runners@[i as int].id,
            job.wf(),
            job.status == old(self).runners@[i as int].status || old(self).runners@[i as int].status.may_become(
                job.status,
            ),
            old(self)@.with_job(i as int, job).active() <= old(self).max_parallel,
        ensures
            final(self)@ == old(self)@.with_job(i as int, job),
            final(self).wf(),
            final(self)@.wf(),
    {
        let before = self.runners[i];
        proof {
            lemma_with_job(self@, i as int, job);
            lemma_count_active_bound(statuses_of(self.runners@));
        }
        self.runners.set(i, job);
        let done = self.table.publish_at(i, job.status);
        if before.status.is_active() && !job.status.is_active() {
            self.in_use = self.in_use - 1;
        } else if !before.status.is_active() && job.status.is_active() {
            self.in_use = self.in_use + 1;
        }
        proof {
            if !done {
                assert(self.table.statuses() =~= statuses_of(old(self).runners@).update(
                    i as int,
                    job.status,
                ));
            }
            assert forall|k: int| 0 <= k < self.runners@.len() implies (
            #[trigger] self.runners@[k]).wf() by {
                if k != i {
                    assert(old(self)@.jobs[k].wf());
                }
            }
        }
    }

    /// Where the first waiting job stands.
    pub fn first_waiting(&self) -> (r: Option<usize>)
        ensures
            match r {
                Some(k) => first_pending(self@.jobs) == Some(k as int) && k
                    < self@.jobs.len() && self@.jobs[k as int].status is Pending,
                None => first_pending(self@.jobs) is None,
            },
    {
        let mut i: usize = 0;
        while i < self.runners.len()
            invariant
                i <= self.runners@.len(),
                forall|j: int| 0 <= j < i ==> !(self.runners@[j].status is Pending),
            decreases self.runners@.len() - i,
        {
            if matches!(self.runners[i].status, DownloadStatus::Pending) {
                proof {
                    lemma_first_pending(self.runners@);
                }
                return Some(i);
            }
            i += 1;
        }
        proof {
            lemma_first_pending(self.runners@);
        }
        None
    }

    /// Gives the first waiting job a slot, if one is free, and returns the
    /// job's id: its process is to be started.
    pub fn start_next(&mut self) -> (r: Option<usize>)
        requires
            old(self).wf(),
        ensures
            (final(self)@, r) == old(self)@.started_next(),
            final(self).wf(),
            final(self)@.wf(),
    {
        if self.cancel_requested || self.in_use >= self.max_parallel {
            return None;
        }
        match self.first_waiting() {
            Some(i) => {
                let mut job = self.runners[i];
                proof {
                    assert(self@.jobs[i as int].wf());
                    lemma_with_job(self@, i as int, job.started().0);
                }
                let _ = job.start();
                self.replace(i, job);
                Some(job.id)
            },
            None => None,
        }
    }

    /// Starts waiting jobs, first come first served, until every slot is
    /// held or no job waits, and returns the ids of the jobs started: the
    /// process of each is to be started.
    pub fn start_downloads(&mut self) -> (ids: Vec<usize>)
        requires
            old(self).wf(),
        ensures
            (final(self)@, ids@) == old(self)@.filled(old(self)@.jobs.len(), seq![]),
            final(self).wf(),
            final(self)@.wf(),
    {
        let mut ids: Vec<usize> = Vec::new();
        let n = self.runners.len();
        let mut k: usize = 0;
        assert(ids@ =~= seq![]);
        while k < n
            invariant_except_break
                self@.filled((n - k) as nat, ids@) == old(self)@.filled(n as nat, seq![]),
            invariant
                k <= n,
                n == old(self)@.jobs.len(),
                self.wf(),
            ensures
                (self@, ids@) == old(self)@.filled(n as nat, seq![]),
            decreases n - k,
        {
            match self.start_next() {
                Some(id) => {
                    ids.push(id);
                },
                None => {
                    break ;
                },
            }
            k += 1;
        }
        ids
    }

    /// Where the job `id` stands.
    pub fn index(&self, id: usize) -> (r: Option<usize>)
        requires
            self.wf(),
        ensures
            match r {
                Some(k) => self@.index_of(id) == Some(k as int) && k < self@.jobs.len()
                    && self@.jobs[k as int].id == id,
                None => self@.index_of(id) is None,
            },
    {
        self.table.position(id)
    }

    /// Takes `event` for the job `id` and says what is to be done for it.
    pub fn handle(&mut self, id: usize, event: Event) -> (a: Action)
        requires
            old(self).wf(),
        ensures
            (final(self)@, a) == old(self)@.handled(id, event),
            final(self).wf(),
            final(self)@.wf(),
    {
        match self.index(id) {
            Some(i) => {
                let mut job = self.runners[i];
                proof {
                    assert(self@.jobs[i as int].wf());
                    crate::runner::law_step_follows_lifecycle(job, self.cancel_requested, event);
                    lemma_with_job(self@, i as int, job.stepped(self.cancel_requested, event).0);
                }
                let action = job.step(self.cancel_requested, event);
                self.replace(i, job);
                action
            },
            None => Action::Nothing,
        }
    }

    /// Takes one line of the output of the job `id`, read `elapsed`
    /// microseconds after its attempt began, with `bytes_so_far` written.
    pub fn output_line(&mut self, id: usize, line: &str, elapsed: u64, bytes_so_far: u64)
        requires
            old(self).wf(),
        ensures
            final(self)@ == old(self)@.after_line(id, line@, elapsed, bytes_so_far),
            final(self).wf(),
            final(self)@.wf(),
    {
        match self.index(id) {
            Some(i) => {
                let mut job = self.runners[i];
                proof {
                    assert(self@.jobs[i as int].wf());
                    crate::runner::law_controls_follow_lifecycle(
                        job,
                        line@,
                        elapsed,
                        bytes_so_far,
                    );
                    lemma_with_job(
                        self@,
                        i as int,
                        job.after_line(line@, elapsed, bytes_so_far),
                    );
                }
                job.output_line(line, elapsed, bytes_so_far);
                self.replace(i, job);
            },
            None => {},
        }
    }

    /// Asks all of the batch to stop. Each job ends when it next reports
    /// an event; no waiting job is started any more.
    pub fn cancel_all(&mut self)
        requires
            old(self).wf(),
        ensures
            final(self)@ == old(self)@.cancelled_all(),
            final(self).wf(),
            final(self)@.wf(),
    {
        self.cancel_requested = true;
    }

    /// Asks the job `id` alone to stop. A job that waits for its slot ends
    /// at once; any other ends when it next reports an event.
    pub fn cancel_one(&mut self, id: usize)
        requires
            old(self).wf(),
        ensures
            final(self)@ == old(self)@.cancelled_one(id),
            final(self).wf(),
            final(self)@.wf(),
    {
        match self.index(id) {
            Some(i) => {
                let mut job = self.runners[i];
                proof {
                    assert(self@.jobs[i as int].wf());
                    lemma_with_job(self@, i as int, JobRunner { cancel_requested: true, ..job });
                    lemma_with_job(self@, i as int, job.with_status(DownloadStatus::Cancelled));
                }
                if matches!(job.status, DownloadStatus::Pending) {
                    let _ = job.step(false, Event::CancelRequested);
                } else {
                    job.request_cancel();
                }
                self.replace(i, job);
            },
            None => {},
        }
    }

    /// Asks the job `id` to hold; the answer is `Suspend` where its
    /// process is to be held.
    pub fn pause_one(&mut self, id: usize) -> (a: Action)
        requires
            old(self).wf(),
        ensures
            (final(self)@, a) == old(self)@.paused_one(id),
            final(self).wf(),
            final(self)@.wf(),
    {
        match self.index(id) {
            Some(i) => {
                let mut job = self.runners[i];
                proof {
                    assert(self@.jobs[i as int].wf());
                    lemma_with_job(self@, i as int, job.paused().0);
                }
                let action = job.pause();
                self.replace(i, job);
                action
            },
            None => Action::Nothing,
        }
    }

    /// Asks the job `id` to go on; the answer is `Resume` where its
    /// process is to be let go.
    pub fn resume_one(&mut self, id: usize) -> (a: Action)
        requires
            old(self).wf(),
        ensures
            (final(self)@, a) == old(self)@.resumed_one(id),
            final(self).wf(),
            final(self)@.wf(),
    {
        match self.index(id) {
            Some(i) => {
                let mut job = self.runners[i];
                proof {
                    assert(self@.jobs[i as int].wf());
                    lemma_with_job(self@, i as int, job.resumed().0);
                }
                let action = job.resume();
                self.replace(i, job);
                action
            },
            None => Action::Nothing,
        }
    }

    /// The number of jobs.
    pub fn len(&self) -> (n: usize)
        ensures
            n == self@.jobs.len(),
    {
        self.runners.len()
    }

    /// The id of job number `i`.
    pub fn id_at(&self, i: usize) -> (id: usize)
        requires
            i < self@.jobs.len(),
        ensures
            id == self@.jobs[i as int].id,
    {
        self.runners[i].id
    }

    /// The status of job number `i`.
    pub fn status_at(&self, i: usize) -> (s: DownloadStatus)
        requires
            i < self@.jobs.len(),
        ensures
            s == self@.jobs[i as int].status,
    {
        self.runners[i].status
    }

    /// Asks job number `i` to go on (`resume`) or to hold.
    pub fn set_paused_at(&mut self, i: usize, resume: bool) -> (a: Action)
        requires
            old(self).wf(),
            i < old(self)@.jobs.len(),
        ensures
            final(self)@ == old(self)@.with_job(
                i as int,
                if resume {
                    old(self)@.jobs[i as int].resumed().0
                } else {
                    old(self)@.jobs[i as int].paused().0
                },
            ),
            a == if resume {
                old(self)@.jobs[i as int].resumed().1
            } else {
                old(self)@.jobs[i as int].paused().1
            },
            final(self).wf(),
            final(self)@.wf(),
    {
        let mut job = self.runners[i];
        proof {
            assert(self@.jobs[i as int].wf());
            lemma_with_job(self@, i as int, job.paused().0);
            lemma_with_job(self@, i as int, job.resumed().0);
        }
        let action = if resume {
            job.resume()
        } else {
            job.pause()
        };
        self.replace(i, job);
        action
    }

    /// Holds job number `i` if it runs, lets it go on if it is held.
    pub fn toggle_at(&mut self, i: usize) -> (a: Action)
        requires
            old(self).wf(),
            i < old(self)@.jobs.len(),
        ensures
            (final(self)@, a) == old(self)@.toggled_at(i as int),
            final(self).wf(),
            final(self)@.wf(),
    {
        let resume = matches!(self.runners[i].status, DownloadStatus::Paused { .. });
        self.set_paused_at(i, resume)
    }

    /// Whether some job is held.
    pub fn has_paused(&self) -> (b: bool)
        ensures
            b == self@.any_paused(),
    {
        let mut i: usize = 0;
        while i < self.runners.len()
            invariant
                i <= self.runners@.len(),
                forall|j: int| 0 <= j < i ==> !((#[trigger] self.runners@[j]).status is Paused),
            decreases self.runners@.len() - i,
        {
            if matches!(self.runners[i].status, DownloadStatus::Paused { .. }) {
                return true;
            }
            i += 1;
        }
        false
    }

    /// Asks every job to go on (`resume`) or to hold, and returns for each
    /// job its id and what is to be done to its process.
    pub fn set_paused_all(&mut self, resume: bool) -> (actions: Vec<(usize, Action)>)
        requires
            old(self).wf(),
        ensures
            final(self)@ == old(self)@.all_set(old(self)@.jobs.len(), resume),
            final(self).wf(),
            final(self)@.wf(),
            actions@.len() == old(self)@.jobs.len(),
            forall|i: int|
                0 <= i < actions@.len() ==> (#[trigger] actions@[i]) == (
                    old(self)@.jobs[i].id,
                    if resume {
                        old(self)@.jobs[i].resumed().1
                    } else {
                        old(self)@.jobs[i].paused().1
                    },
                ),
    {
        let mut actions: Vec<(usize, Action)> = Vec::new();
        let n = self.runners.len();
        let mut i: usize = 0;
        while i < n
            invariant
                i <= n,
                n == old(self)@.jobs.len(),
                self.wf(),
                self@ == old(self)@.all_set(i as nat, resume),
                self@.jobs.len() == n,
                forall|k: int| i <= k < n ==> self@.jobs[k] == old(self)@.jobs[k],
                actions@.len() == i,
                forall|k: int|
                    0 <= k < i ==> (#[trigger] actions@[k]) == (
                        old(self)@.jobs[k].id,
                        if resume {
                            old(self)@.jobs[k].resumed().1
                        } else {
                            old(self)@.jobs[k].paused().1
                        },
                    ),
            decreases n - i,
        {
            let id = self.runners[i].id;
            let action = self.set_paused_at(i, resume);
            actions.push((id, action));
            i += 1;
        }
        actions
    }

    /// Lets every job that waits for a slot see the request to stop, if
    /// all of the batch was asked to: such a job has no process yet and
    /// ends in `Cancelled` at once.
    pub fn end_waiting(&mut self)
        requires
            old(self).wf(),
        ensures
            final(self)@ == old(self)@.waiting_ended(old(self)@.jobs.len()),
            final(self).wf(),
            final(self)@.wf(),
    {
        let n = self.runners.len();
        let mut i: usize = 0;
        while i < n
            invariant
                i <= n,
                n == old(self)@.jobs.len(),
                self.wf(),
                self@ == old(self)@.waiting_ended(i as nat),
                self@.jobs.len() == n,
            decreases n - i,
        {
            let mut job = self.runners[i];
            if self.cancel_requested && matches!(job.status, DownloadStatus::Pending) {
                proof {
                    assert(self@.jobs[i as int].wf());
                    lemma_with_job(self@, i as int, job.with_status(DownloadStatus::Cancelled));
                }
                let _ = job.step(true, Event::CancelRequested);
                self.replace(i, job);
            }
            i += 1;
        }
    }

    /// Whether every job has ended; true of a batch without jobs.
    pub fn is_batch_finished(&self) -> (b: bool)
        requires
            self.wf(),
        ensures
            b == self@.finished(),
    {
        let b = self.table.is_finished();
        proof {
            if b {
                assert forall|i: int| 0 <= i < self@.jobs.len() implies (
                #[trigger] self@.jobs[i]).status.terminal() by {
                    assert(self.table.statuses()[i].terminal());
                }
            } else {
                let i = choose|i: int|
                    0 <= i < self.table.statuses().len() && !(
                    #[trigger] self.table.statuses()[i]).terminal();
                assert(!self@.jobs[i].status.terminal());
            }
        }
        b
    }

    /// Whether the front end may leave: all of the batch was asked to
    /// stop, and every job has ended.
    pub fn may_exit(&self) -> (b: bool)
        requires
            self.wf(),
        ensures
            b == (self@.cancel_requested && self@.finished()),
    {
        self.cancel_requested && self.is_batch_finished()
    }

    /// Whether all of the batch was asked to stop.
    pub fn is_cancel_requested(&self) -> (b: bool)
        ensures
            b == self@.cancel_requested,
    {
        self.cancel_requested
    }

    /// Whether the job `id` was asked to stop, alone or with all of the
    /// batch.
    pub fn is_cancelled(&self, id: usize) -> (b: bool)
        requires
            self.wf(),
        ensures
            b == self@.cancel_pending(id),
    {
        self.cancel_requested || match self.index(id) {
            Some(i) => self.runners[i].cancel_requested,
            None => false,
        }
    }

    /// The status of the job `id`.
    pub fn status(&self, id: usize) -> (r: Option<DownloadStatus>)
        requires
            self.wf(),
        ensures
            r == self@.status_of(id),
    {
        match self.index(id) {
            Some(i) => Some(self.runners[i].status),
            None => None,
        }
    }

    /// The ids with their statuses, in the order of the batch.
    pub fn snapshot(&self) -> (v: Vec<(usize, DownloadStatus)>)
        requires
            self.wf(),
        ensures
            v@.len() == self@.jobs.len(),
            forall|i: int|
                0 <= i < v@.len() ==> v@[i] == (self@.jobs[i].id, self@.jobs[i].status),
    {
        self.table.snapshot()
    }

    /// How many jobs hold a slot.
    pub fn active_jobs(&self) -> (n: usize)
        requires
            self.wf(),
        ensures
            n == self@.active(),
            n <= self@.max_parallel,
    {
        self.in_use
    }
}

/// Where every status waits, no slot is held.
pub proof fn lemma_none_active(statuses: Seq<DownloadStatus>)
    requires
        forall|i: int| 0 <= i < statuses.len() ==> statuses[i] is Pending,
    ensures
        count_active(statuses) == 0,
    decreases statuses.len(),
{
    if statuses.len() > 0 {
        lemma_none_active(statuses.drop_last());
    }
}

// ---------------------------------------------------------------------
// What holds of every batch
// ---------------------------------------------------------------------
/// Replacing a job keeps the batch well-formed where the new job takes no
/// slot that is not free.
pub proof fn lemma_with_job_wf(b: Batch, i: int, job: JobRunner)
    requires
        b.wf(),
        0 <= i < b.jobs.len(),
        job.id == b.jobs[i].id,
        job.wf(),
        job.status.active() ==> b.jobs[i].status.active() || b.active() < b.max_parallel,
    ensures
        b.with_job(i, job).wf(),
        b.with_job(i, job).jobs.len() == b.jobs.len(),
{
    lemma_with_job(b, i, job);
    assert forall|k: int| 0 <= k < b.jobs.len() implies (#[trigger] b.with_job(
        i,
        job,
    ).jobs[k]).wf() by {
        if k != i {
            assert(b.jobs[k].wf());
        }
    }
}

/// Whatever is done to a well-formed batch leaves it well-formed: at no
/// time do more jobs hold a slot than there are slots.
pub proof fn law_slots_are_bounded(
    b: Batch,
    id: usize,
    event: Event,
    line: Seq<char>,
    elapsed: u64,
    bytes_so_far: u64,
)
    requires
        b.wf(),
    ensures
        b.active() <= b.max_parallel,
        b.started_next().0.wf(),
        b.handled(id, event).0.wf(),
        b.after_line(id, line, elapsed, bytes_so_far).wf(),
        b.cancelled_all().wf(),
        b.cancelled_one(id).wf(),
        b.paused_one(id).0.wf(),
        b.resumed_one(id).0.wf(),
{
    lemma_first_pending(b.jobs);
    lemma_position_of(ids_of(b.jobs), id);
    if !b.cancel_requested && b.active() < b.max_parallel {
        if let Some(k) = first_pending(b.jobs) {
            assert(b.jobs[k].wf());
            lemma_with_job_wf(b, k, b.jobs[k].started().0);
        }
    }
    if let Some(i) = b.index_of(id) {
        let job = b.jobs[i];
        assert(job.wf());
        crate::runner::law_step_follows_lifecycle(job, b.cancel_requested, event);
        crate::runner::law_controls_follow_lifecycle(job, line, elapsed, bytes_so_far);
        lemma_with_job_wf(b, i, job.stepped(b.cancel_requested, event).0);
        lemma_with_job_wf(b, i, job.after_line(line, elapsed, bytes_so_far));
        lemma_with_job_wf(b, i, JobRunner { cancel_requested: true, ..job });
        lemma_with_job_wf(b, i, job.with_status(DownloadStatus::Cancelled));
        lemma_with_job_wf(b, i, job.paused().0);
        lemma_with_job_wf(b, i, job.resumed().0);
    }
}

/// An event changes the status of its own job only, and only along the
/// lifecycle; a job that has ended is never changed again.
pub proof fn law_batch_follows_lifecycle(b: Batch, id: usize, event: Event, k: int)
    requires
        b.wf(),
        0 <= k < b.jobs.len(),
    ensures
        b.handled(id, event).0.jobs.len() == b.jobs.len(),
        b.jobs[k].id != id ==> b.handled(id, event).0.jobs[k] == b.jobs[k],
        b.jobs[k].status.terminal() ==> b.handled(id, event).0.jobs[k] == b.jobs[k],
        b.handled(id, event).0.jobs[k].status == b.jobs[k].status || b.jobs[k].status.may_become(
            b.handled(id, event).0.jobs[k].status,
        ),
{
    lemma_position_of(ids_of(b.jobs), id);
    if let Some(i) = b.index_of(id) {
        assert(b.jobs[i].wf());
        crate::runner::law_step_follows_lifecycle(b.jobs[i], b.cancel_requested, event);
    }
}

/// With every slot held and a job waiting, no job is started; once one
/// of the running jobs has ended, exactly one waiting job is started, and
/// then again none.
pub proof fn law_release_admits_one(b: Batch, id: usize, event: Event)
    requires
        b.wf(),
        !b.cancel_requested,
        b.active() == b.max_parallel,
        first_pending(b.jobs) is Some,
        b.status_of(id) matches Some(s) && s.active(),
        b.handled(id, event).0.status_of(id) matches Some(s) && s.terminal(),
    ensures
        b.started_next() == (b, None::<usize>),
        ({
            let freed = b.handled(id, event).0;
            let (refilled, got) = freed.started_next();
            &&& freed.active() == b.max_parallel - 1
            &&& got is Some
            &&& b.status_of(got->0) == Some(DownloadStatus::Pending)
            &&& refilled.status_of(got->0) == Some(DownloadStatus::Starting { attempt: 1 })
            &&& refilled.active() == b.max_parallel
            &&& refilled.started_next() == (refilled, None::<usize>)
        }),
{
    lemma_position_of(ids_of(b.jobs), id);
    lemma_first_pending(b.jobs);
    let i = b.index_of(id)->0;
    let j = first_pending(b.jobs)->0;
    assert(b.jobs[i].wf());
    let job = b.jobs[i].stepped(b.cancel_requested, event).0;
    crate::runner::law_step_follows_lifecycle(b.jobs[i], b.cancel_requested, event);
    lemma_with_job(b, i, job);
    lemma_with_job_wf(b, i, job);
    let freed = b.handled(id, event).0;
    assert(freed == b.with_job(i, job));
    lemma_position_of(ids_of(freed.jobs), id);
    assert(freed.jobs[i].status.terminal());
    assert(freed.jobs[j] == b.jobs[j]);
    lemma_first_pending(freed.jobs);
    let k = first_pending(freed.jobs)->0;
    assert(k == j) by {
        if k < j {
            assert(freed.jobs[k] == b.jobs[k]);
        }
    }
    assert(freed.jobs[k].wf());
    lemma_with_job(freed, k, freed.jobs[k].started().0);
    lemma_with_job_wf(freed, k, freed.jobs[k].started().0);
    let refilled = freed.started_next().0;
    let got = freed.jobs[k].id;
    lemma_position_of(ids_of(b.jobs), got);
    lemma_position_of(ids_of(refilled.jobs), got);
    assert(ids_of(b.jobs)[k] == got);
    assert(ids_of(refilled.jobs)[k] == got);
}

/// Once all of the batch was asked to stop, the next event of a job that
/// has not ended ends it in `Cancelled`, whatever the event is.
pub proof fn law_cancel_all_reaches_each_job(b: Batch, id: usize, event: Event)
    requires
        b.wf(),
        b.status_of(id) matches Some(s) && !s.terminal(),
    ensures
        b.cancelled_all().handled(id, event).0.status_of(id) == Some(DownloadStatus::Cancelled),
        b.cancelled_all().started_next() == (b.cancelled_all(), None::<usize>),
{
    lemma_position_of(ids_of(b.jobs), id);
    let c = b.cancelled_all();
    let i = c.index_of(id)->0;
    let job = c.jobs[i].stepped(true, event).0;
    lemma_with_job(c, i, job);
    lemma_position_of(ids_of(c.with_job(i, job).jobs), id);
}

/// What `after_all_saw_cancel` leaves: the jobs that had ended are as they
/// were, the others among the first `n` are `Cancelled`.
pub proof fn lemma_after_all_saw_cancel(b: Batch, n: nat)
    requires
        b.cancel_requested,
        n <= b.jobs.len(),
    ensures
        ({
            let c = b.after_all_saw_cancel(n);
            &&& c.jobs.len() == b.jobs.len()
            &&& c.cancel_requested
            &&& c.max_parallel == b.max_parallel
            &&& forall|k: int|
                0 <= k < n ==> (#[trigger] c.jobs[k]).status == if b.jobs[k].status.terminal() {
                    b.jobs[k].status
                } else {
                    DownloadStatus::Cancelled
                }
            &&& forall|k: int| n <= k < b.jobs.len() ==> #[trigger] c.jobs[k] == b.jobs[k]
        }),
    decreases n,
{
    if n > 0 {
        lemma_after_all_saw_cancel(b, (n - 1) as nat);
    }
}

/// Asking all of the batch to stop ends it: once every job has seen the
/// request, each job that had not ended is `Cancelled`, each other is as it
/// was, and the batch is finished.
pub proof fn law_cancel_all_ends_batch(b: Batch)
    requires
        b.wf(),
    ensures
        ({
            let c = b.cancelled_all().after_all_saw_cancel(b.jobs.len());
            &&& c.finished()
            &&& c.jobs.len() == b.jobs.len()
            &&& forall|k: int|
                0 <= k < b.jobs.len() ==> (#[trigger] c.jobs[k]).status == if b.jobs[k].status.terminal() {
                    b.jobs[k].status
                } else {
                    DownloadStatus::Cancelled
                }
        }),
{
    lemma_after_all_saw_cancel(b.cancelled_all(), b.jobs.len());
}

/// A batch without jobs is finished, and so is one whose jobs have all
/// ended, however they ended.
pub proof fn law_finished_counts_every_end(b: Batch)
    ensures
        b.jobs.len() == 0 ==> b.finished(),
        b.finished() <==> forall|i: int|
            0 <= i < b.jobs.len() ==> {
                let s = #[trigger] b.jobs[i].status;
                s is Completed || s is Failed || s is Cancelled || s is TimedOut
            },
{
    if b.finished() {
        assert forall|i: int| 0 <= i < b.jobs.len() implies {
            let s = #[trigger] b.jobs[i].status;
            s is Completed || s is Failed || s is Cancelled || s is TimedOut
        } by {
            assert(b.jobs[i].status.terminal());
        }
    }
    if forall|i: int|
        0 <= i < b.jobs.len() ==> {
            let s = #[trigger] b.jobs[i].status;
            s is Completed || s is Failed || s is Cancelled || s is TimedOut
        } {
        assert forall|i: int| 0 <= i < b.jobs.len() implies (
        #[trigger] b.jobs[i]).status.terminal() by {
            let s = b.jobs[i].status;
        }
    }
}

/// How many of `jobs` wait for a slot.
pub open spec fn count_pending(jobs: Seq<JobRunner>) -> nat
    decreases jobs.len(),
{
    if jobs.len() == 0 {
        0
    } else {
        count_pending(jobs.drop_last()) + if jobs.last().status is Pending {
            1nat
        } else {
            0nat
        }
    }
}

/// Replacing one job changes the number of waiting jobs by that job
/// alone.
pub proof fn lemma_count_pending_update(jobs: Seq<JobRunner>, i: int, job: JobRunner)
    requires
        0 <= i < jobs.len(),
    ensures
        count_pending(jobs.update(i, job)) + (if jobs[i].status is Pending {
            1nat
        } else {
            0nat
        }) == count_pending(jobs) + (if job.status is Pending {
            1nat
        } else {
            0nat
        }),
    decreases jobs.len(),
{
    if i == jobs.len() - 1 {
        assert(jobs.update(i, job).drop_last() =~= jobs.drop_last());
    } else {
        assert(jobs.update(i, job).drop_last() =~= jobs.drop_last().update(i, job));
        lemma_count_pending_update(jobs.drop_last(), i, job);
    }
}

/// Where no job is counted as waiting, none waits.
pub proof fn lemma_count_pending_zero(jobs: Seq<JobRunner>)
    requires
        count_pending(jobs) == 0,
    ensures
        first_pending(jobs) is None,
    decreases jobs.len(),
{
    if jobs.len() > 0 {
        lemma_count_pending_zero(jobs.drop_last());
    }
}

/// Starting waiting jobs at least as often as jobs wait leaves a
/// well-formed batch in which no further job can be started.
pub proof fn lemma_filled_drains(b: Batch, n: nat, ids: Seq<usize>)
    requires
        b.wf(),
        n >= count_pending(b.jobs),
    ensures
        b.filled(n, ids).0.wf(),
        b.filled(n, ids).0.started_next() == (b.filled(n, ids).0, None::<usize>),
    decreases n,
{
    lemma_first_pending(b.jobs);
    if n == 0 {
        lemma_count_pending_zero(b.jobs);
    } else if b.started_next().1 is Some {
        let k = first_pending(b.jobs)->0;
        let job = b.jobs[k].started().0;
        assert(b.jobs[k].wf());
        lemma_with_job_wf(b, k, job);
        lemma_count_pending_update(b.jobs, k, job);
        lemma_filled_drains(b.started_next().0, (n - 1) as nat, ids.push(b.jobs[k].id));
    }
}

/// No more jobs wait than there are jobs.
pub proof fn lemma_count_pending_bound(jobs: Seq<JobRunner>)
    ensures
        count_pending(jobs) <= jobs.len(),
    decreases jobs.len(),
{
    if jobs.len() > 0 {
        lemma_count_pending_bound(jobs.drop_last());
    }
}

/// After waiting jobs were started as `start_downloads` does, the batch
/// is well-formed and no further job can be started: every slot is held,
/// no job waits, or the batch was asked to stop.
pub proof fn law_start_downloads_is_complete(b: Batch)
    requires
        b.wf(),
    ensures
        ({
            let full = b.filled(b.jobs.len(), seq![]).0;
            &&& full.wf()
            &&& full.started_next() == (full, None::<usize>)
            &&& full.cancel_requested || full.active() == full.max_parallel || first_pending(
                full.jobs,
            ) is None
        }),
{
    lemma_count_pending_bound(b.jobs);
    lemma_filled_drains(b, b.jobs.len(), seq![]);
    let full = b.filled(b.jobs.len(), seq![]).0;
    lemma_first_pending(full.jobs);
}

/// What `waiting_ended` leaves of a batch that was asked to stop: no
/// job among the first `n` waits any more, and the jobs that did not wait
/// are as they were.
pub proof fn law_no_job_waits_after_cancel(b: Batch, n: nat)
    requires
        b.cancel_requested,
        n <= b.jobs.len(),
    ensures
        ({
            let c = b.waiting_ended(n);
            &&& c.jobs.len() == b.jobs.len()
            &&& c.cancel_requested
            &&& forall|k: int|
                0 <= k < n ==> (#[trigger] c.jobs[k]) == if b.jobs[k].status is Pending {
                    b.jobs[k].with_status(DownloadStatus::Cancelled)
                } else {
                    b.jobs[k]
                }
            &&& forall|k: int| n <= k < b.jobs.len() ==> #[trigger] c.jobs[k] == b.jobs[k]
        }),
    decreases n,
{
    if n > 0 {
        law_no_job_waits_after_cancel(b, (n - 1) as nat);
    }
}

/// Of every well-formed orchestrator: with every slot held and a job
/// waiting, `start_next` starts none; once `handle` has ended one of the
/// running jobs, the next `start_next` starts exactly one waiting job, and
/// the one after that none.
pub proof fn law_orchestrator_release_admits_one(o: &Orchestrator, id: usize, event: Event)
    requires
        o.wf(),
        !o@.cancel_requested,
        o@.active() == o@.max_parallel,
        first_pending(o@.jobs) is Some,
        o@.status_of(id) matches Some(s) && s.active(),
        o@.handled(id, event).0.status_of(id) matches Some(s) && s.terminal(),
    ensures
        o@.started_next() == (o@, None::<usize>),
        ({
            let freed = o@.handled(id, event).0;
            let (refilled, got) = freed.started_next();
            &&& freed.active() == o@.max_parallel - 1
            &&& got is Some
            &&& o@.status_of(got->0) == Some(DownloadStatus::Pending)
            &&& refilled.status_of(got->0) == Some(DownloadStatus::Starting { attempt: 1 })
            &&& refilled.active() == o@.max_parallel
            &&& refilled.started_next() == (refilled, None::<usize>)
        }),
{
    o.lemma_view_is_well_formed();
    law_release_admits_one(o@, id, event);
}

/// Of every well-formed orchestrator: after `cancel_all`, once `handle`
/// has taken one event for each job, whatever the events are, the batch
/// is finished, each job that had not ended is `Cancelled` and each other
/// is as it was.
pub proof fn law_orchestrator_cancel_all_ends_batch(o: &Orchestrator)
    requires
        o.wf(),
    ensures
        ({
            let c = o@.cancelled_all().after_all_saw_cancel(o@.jobs.len());
            &&& c.finished()
            &&& c.jobs.len() == o@.jobs.len()
            &&& forall|k: int|
                0 <= k < o@.jobs.len() ==> (#[trigger] c.jobs[k]).status == if o@.jobs[k].status.terminal() {
                    o@.jobs[k].status
                } else {
                    DownloadStatus::Cancelled
                }
        }),
{
    o.lemma_view_is_well_formed();
    law_cancel_all_ends_batch(o@);
}

} // verus!
