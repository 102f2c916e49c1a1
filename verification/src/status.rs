//! The status of a job and the table that holds one status per job.

use vstd::prelude::*;

verus! {

/// Why a job failed for good.
#[derive(Clone, Copy, Debug, PartialEq, Eq, Structural)]
pub enum FailureReason {
    /// The process left with this non-zero code at the last attempt.
    ExitCode(i32),
    /// The process could not be started.
    SpawnFailed,
    /// Waiting for the process, or reading its output, failed at the last
    /// attempt.
    IoError,
}

/// Progress figures of a running job. `percent` is in hundredths of a
/// percent, `speed` in thousandths of media seconds per second.
#[derive(Clone, Copy, Debug, PartialEq, Eq, Structural)]
pub struct Progress {
    pub percent: Option<u32>,
    pub speed: Option<u64>,
    pub eta_seconds: Option<u64>,
    pub bytes_so_far: u64,
}

/// Where a job stands.
#[derive(Clone, Copy, Debug, PartialEq, Eq, Structural)]
pub enum DownloadStatus {
    /// Waiting for a slot.
    Pending,
    /// Attempt number `attempt` is about to start its process.
    Starting { attempt: u32 },
    /// The process of attempt number `attempt` runs.
    Running { attempt: u32, progress: Progress },
    /// The process of attempt number `attempt` is held in place.
    Paused { attempt: u32 },
    Completed { bytes_total: u64 },
    Failed { reason: FailureReason },
    Cancelled,
    TimedOut,
}

impl Progress {
    /// Nothing known yet.
    pub open spec fn unknown() -> Progress {
        Progress { percent: None, speed: None, eta_seconds: None, bytes_so_far: 0 }
    }

    /// Figures of which nothing is known yet.
    pub fn new() -> (p: Progress)
        ensures
            p == Progress::unknown(),
    {
        Progress { percent: None, speed: None, eta_seconds: None, bytes_so_far: 0 }
    }
}

impl DownloadStatus {
    /// The four states that a job never leaves.
    pub open spec fn terminal(self) -> bool {
        self is Completed || self is Failed || self is Cancelled || self is TimedOut
    }

    /// The states in which a job holds one of the slots.
    pub open spec fn active(self) -> bool {
        self is Starting || self is Running || self is Paused
    }

    /// The attempt number, for the states that have one.
    pub open spec fn attempt_of(self) -> Option<u32> {
        match self {
            DownloadStatus::Starting { attempt } => Some(attempt),
            DownloadStatus::Running { attempt, .. } => Some(attempt),
            DownloadStatus::Paused { attempt } => Some(attempt),
            _ => None,
        }
    }

    /// The steps that the lifecycle allows from one status to the next.
    pub open spec fn may_become(self, next: DownloadStatus) -> bool {
        match self {
            DownloadStatus::Pending => next == (DownloadStatus::Starting { attempt: 1 })
                || next is Cancelled,
            DownloadStatus::Starting { attempt } => {
                ||| next == (DownloadStatus::Running { attempt, progress: Progress::unknown() })
                ||| next is Failed
                ||| next is Cancelled
            },
            DownloadStatus::Running { attempt, .. } => {
                ||| next matches DownloadStatus::Running { attempt: a, .. } && a == attempt
                ||| next == (DownloadStatus::Paused { attempt })
                ||| attempt < u32::MAX && next == (DownloadStatus::Starting {
                    attempt: (attempt + 1) as u32,
                })
                ||| next.terminal()
            },
            DownloadStatus::Paused { attempt } => {
                ||| next matches DownloadStatus::Running { attempt: a, .. } && a == attempt
                ||| next is Completed
                ||| next is Failed
                ||| next is Cancelled
            },
            _ => false,
        }
    }

    /// Whether the job has ended.
    #[verifier::when_used_as_spec(terminal)]
    pub fn is_terminal(self) -> (b: bool)
        ensures
            b == self.terminal(),
    {
        match self {
            DownloadStatus::Completed { .. } => true,
            DownloadStatus::Failed { .. } => true,
            DownloadStatus::Cancelled => true,
            DownloadStatus::TimedOut => true,
            _ => false,
        }
    }

    /// Whether the job holds a slot.
    #[verifier::when_used_as_spec(active)]
    pub fn is_active(self) -> (b: bool)
        ensures
            b == self.active(),
    {
        match self {
            DownloadStatus::Starting { .. } => true,
            DownloadStatus::Running { .. } => true,
            DownloadStatus::Paused { .. } => true,
            _ => false,
        }
    }

    /// The attempt number, for the states that have one.
    pub fn attempt(self) -> (a: Option<u32>)
        ensures
            a == self.attempt_of(),
    {
        match self {
            DownloadStatus::Starting { attempt } => Some(attempt),
            DownloadStatus::Running { attempt, .. } => Some(attempt),
            DownloadStatus::Paused { attempt } => Some(attempt),
            _ => None,
        }
    }
}

/// No step leads out of a terminal status, and none leads from a status to
/// `Pending`.
pub proof fn law_terminal_is_final(from: DownloadStatus, to: DownloadStatus)
    requires
        from.may_become(to),
    ensures
        !from.terminal(),
        !(to is Pending),
{
}

/// `Paused` is entered from `Running` only, with the attempt number kept,
/// and left for `Running` with the same attempt number or for a terminal
/// status.
pub proof fn law_paused_keeps_attempt(from: DownloadStatus, to: DownloadStatus)
    requires
        from.may_become(to),
    ensures
        to is Paused ==> from is Running && from.attempt_of() == to.attempt_of(),
        from is Paused ==> to.terminal() || (to is Running && to.attempt_of()
            == from.attempt_of()),
{
}

/// A job that holds a slot keeps it until it ends: no step leads from a
/// status that holds a slot to one that waits, and a new attempt does not
/// let the slot go. The attempt number never falls, and rises by one at a
/// time.
pub proof fn law_slot_is_kept_until_the_end(from: DownloadStatus, to: DownloadStatus)
    requires
        from.active(),
        from.may_become(to),
    ensures
        to.active() || to.terminal(),
        to.attempt_of() matches Some(b) ==> from.attempt_of() == Some(b) || from.attempt_of()
            == Some((b - 1) as u32),
{
}

// ---------------------------------------------------------------------
// The table
// ---------------------------------------------------------------------
/// The first position of `id` in `ids`.
pub open spec fn position_of(ids: Seq<usize>, id: usize) -> Option<int>
    decreases ids.len(),
{
    if ids.len() == 0 {
        None
    } else {
        match position_of(ids.drop_last(), id) {
            Some(i) => Some(i),
            None => if ids.last() == id {
                Some(ids.len() - 1)
            } else {
                None
            },
        }
    }
}

/// `position_of` finds an id exactly where the id stands, and the first
/// place of it.
pub proof fn lemma_position_of(ids: Seq<usize>, id: usize)
    ensures
        match position_of(ids, id) {
            Some(i) => 0 <= i < ids.len() && ids[i] == id && forall|j: int|
                0 <= j < i ==> ids[j] != id,
            None => forall|j: int| 0 <= j < ids.len() ==> ids[j] != id,
        },
    decreases ids.len(),
{
    if ids.len() > 0 {
        lemma_position_of(ids.drop_last(), id);
        assert forall|j: int| 0 <= j < ids.len() - 1 implies ids.drop_last()[j] == ids[j] by {}
    }
}

/// How many of `statuses` hold a slot.
pub open spec fn count_active(statuses: Seq<DownloadStatus>) -> nat
    decreases statuses.len(),
{
    if statuses.len() == 0 {
        0
    } else {
        count_active(statuses.drop_last()) + if statuses.last().active() {
            1nat
        } else {
            0nat
        }
    }
}

/// Changing one status changes the count by that status alone.
pub proof fn lemma_count_active_update(statuses: Seq<DownloadStatus>, i: int, s: DownloadStatus)
    requires
        0 <= i < statuses.len(),
    ensures
        count_active(statuses.update(i, s)) + (if statuses[i].active() {
            1nat
        } else {
            0nat
        }) == count_active(statuses) + (if s.active() {
            1nat
        } else {
            0nat
        }),
    decreases statuses.len(),
{
    if i == statuses.len() - 1 {
        assert(statuses.update(i, s).drop_last() =~= statuses.drop_last());
    } else {
        assert(statuses.update(i, s).drop_last() =~= statuses.drop_last().update(i, s));
        lemma_count_active_update(statuses.drop_last(), i, s);
    }
}

/// No more statuses hold a slot than there are statuses, and where one
/// of them holds none, fewer.
pub proof fn lemma_count_active_bound(statuses: Seq<DownloadStatus>)
    ensures
        count_active(statuses) <= statuses.len(),
        (exists|i: int| 0 <= i < statuses.len() && !statuses[i].active()) ==> count_active(
            statuses,
        ) < statuses.len(),
    decreases statuses.len(),
{
    if statuses.len() > 0 {
        lemma_count_active_bound(statuses.drop_last());
        if exists|i: int| 0 <= i < statuses.len() && !statuses[i].active() {
            let i = choose|i: int| 0 <= i < statuses.len() && !statuses[i].active();
            if i < statuses.len() - 1 {
                assert(!statuses.drop_last()[i].active());
            }
        }
    }
}

/// One status per job, in the order in which the jobs were given.
#[derive(Debug, PartialEq, Eq)]
pub struct StatusTable {
    ids: Vec<usize>,
    statuses: Vec<DownloadStatus>,
}

impl StatusTable {
    /// The ids of the jobs, in the order in which they were given.
    pub closed spec fn ids(&self) -> Seq<usize> {
        self.ids@
    }

    /// The statuses of the jobs, in the order of their ids.
    pub closed spec fn statuses(&self) -> Seq<DownloadStatus> {
        self.statuses@
    }

    /// Each id stands once, and has its status.
    pub open spec fn wf(&self) -> bool {
        &&& self.ids().len() == self.statuses().len()
        &&& self.ids().no_duplicates()
    }

    /// The status of `id`, if the table has the id.
    pub open spec fn status_of(&self, id: usize) -> Option<DownloadStatus> {
        match position_of(self.ids(), id) {
            Some(i) => Some(self.statuses()[i]),
            None => None,
        }
    }

    /// Every job has ended; true of a table without jobs.
    pub open spec fn all_terminal(&self) -> bool {
        forall|i: int| 0 <= i < self.statuses().len() ==> (#[trigger] self.statuses()[i]).terminal()
    }

    /// A table with all of `ids` waiting; none if an id stands twice.
    pub fn new(ids: Vec<usize>) -> (r: Option<StatusTable>)
        ensures
            r is Some <==> ids@.no_duplicates(),
            r matches Some(t) ==> t.wf() && t.ids() == ids@ && forall|i: int|
                0 <= i < ids@.len() ==> t.statuses()[i] is Pending,
    {
        let n = ids.len();
        let mut statuses: Vec<DownloadStatus> = Vec::new();
        let mut i: usize = 0;
        while i < n
            invariant
                i <= n,
                n == ids@.len(),
                statuses@.len() == i,
                forall|k: int| 0 <= k < i ==> statuses@[k] is Pending,
                forall|a: int, b: int| 0 <= a < b < i ==> ids@[a] != ids@[b],
            decreases n - i,
        {
            let mut j: usize = 0;
            while j < i
                invariant
                    j <= i < n,
                    n == ids@.len(),
                    forall|a: int| 0 <= a < j ==> ids@[a] != ids@[i as int],
                decreases i - j,
            {
                if ids[j] == ids[i] {
                    return None;
                }
                j += 1;
            }
            statuses.push(DownloadStatus::Pending);
            i += 1;
        }
        Some(StatusTable { ids, statuses })
    }

    /// The number of jobs.
    pub fn len(&self) -> (n: usize)
        ensures
            n == self.ids().len(),
    {
        self.ids.len()
    }

    /// Where `id` stands.
    pub fn position(&self, id: usize) -> (r: Option<usize>)
        ensures
            match r {
                Some(k) => position_of(self.ids(), id) == Some(k as int) && k < self.ids().len()
                    && self.ids()[k as int] == id,
                None => position_of(self.ids(), id) is None,
            },
    {
        let mut i: usize = 0;
        while i < self.ids.len()
            invariant
                i <= self.ids@.len(),
                forall|j: int| 0 <= j < i ==> self.ids@[j] != id,
            decreases self.ids@.len() - i,
        {
            if self.ids[i] == id {
                proof {
                    lemma_position_of(self.ids@, id);
                }
                return Some(i);
            }
            i += 1;
        }
        proof {
            lemma_position_of(self.ids@, id);
        }
        None
    }

    /// The status of `id`.
    pub fn get(&self, id: usize) -> (r: Option<DownloadStatus>)
        requires
            self.wf(),
        ensures
            r == self.status_of(id),
    {
        match self.position(id) {
            Some(i) => Some(self.statuses[i]),
            None => None,
        }
    }

    /// Writes `status` at place `i` if the lifecycle allows the step from
    /// the status that stands there, and says whether it did.
    pub fn publish_at(&mut self, i: usize, status: DownloadStatus) -> (done: bool)
        requires
            old(self).wf(),
            i < old(self).statuses().len(),
        ensures
            done == old(self).statuses()[i as int].may_become(status),
            final(self).ids() == old(self).ids(),
            final(self).statuses() == if done {
                old(self).statuses().update(i as int, status)
            } else {
                old(self).statuses()
            },
            final(self).wf(),
    {
        if may_follow(self.statuses[i], status) {
            self.statuses.set(i, status);
            true
        } else {
            false
        }
    }

    /// Writes `status` for `id` if the table has the id and the lifecycle
    /// allows the step, and says whether it did. A status that has ended
    /// is never overwritten.
    pub fn publish(&mut self, id: usize, status: DownloadStatus) -> (done: bool)
        requires
            old(self).wf(),
        ensures
            done == match old(self).status_of(id) {
                Some(s) => s.may_become(status),
                None => false,
            },
            final(self).ids() == old(self).ids(),
            final(self).statuses() == if done {
                old(self).statuses().update(position_of(old(self).ids(), id)->0, status)
            } else {
                old(self).statuses()
            },
            final(self).wf(),
    {
        match self.position(id) {
            Some(i) => self.publish_at(i, status),
            None => false,
        }
    }

    /// Whether every job has ended.
    pub fn is_finished(&self) -> (b: bool)
        ensures
            b == self.all_terminal(),
    {
        let mut i: usize = 0;
        while i < self.statuses.len()
            invariant
                i <= self.statuses().len(),
                forall|j: int| 0 <= j < i ==> (#[trigger] self.statuses()[j]).terminal(),
            decreases self.statuses().len() - i,
        {
            if !self.statuses[i].is_terminal() {
                assert(!self.statuses()[i as int].terminal());
                return false;
            }
            i += 1;
        }
        true
    }

    /// The ids with their statuses, in the table's order.
    pub fn snapshot(&self) -> (v: Vec<(usize, DownloadStatus)>)
        requires
            self.wf(),
        ensures
            v@.len() == self.ids().len(),
            forall|i: int|
                0 <= i < v@.len() ==> v@[i] == (self.ids()[i], self.statuses()[i]),
    {
        let mut v: Vec<(usize, DownloadStatus)> = Vec::new();
        let mut i: usize = 0;
        while i < self.ids.len()
            invariant
                i <= self.ids@.len(),
                self.ids@.len() == self.statuses@.len(),
                v@.len() == i,
                forall|k: int| 0 <= k < i ==> v@[k] == (self.ids@[k], self.statuses@[k]),
            decreases self.ids@.len() - i,
        {
            v.push((self.ids[i], self.statuses[i]));
            i += 1;
        }
        v
    }
}

/// Whether the lifecycle allows the step from `from` to `to`.
pub fn may_follow(from: DownloadStatus, to: DownloadStatus) -> (b: bool)
    ensures
        b == from.may_become(to),
{
    match from {
        DownloadStatus::Pending => match to {
            DownloadStatus::Starting { attempt } => attempt == 1,
            DownloadStatus::Cancelled => true,
            _ => false,
        },
        DownloadStatus::Starting { attempt } => match to {
            DownloadStatus::Running { attempt: a, progress } => a == attempt
                && progress.percent.is_none() && progress.speed.is_none()
                && progress.eta_seconds.is_none() && progress.bytes_so_far == 0,
            DownloadStatus::Failed { .. } => true,
            DownloadStatus::Cancelled => true,
            _ => false,
        },
        DownloadStatus::Running { attempt, .. } => match to {
            DownloadStatus::Running { attempt: a, .. } => a == attempt,
            DownloadStatus::Paused { attempt: a } => a == attempt,
            DownloadStatus::Starting { attempt: a } => attempt < u32::MAX && a == attempt + 1,
            DownloadStatus::Pending => false,
            _ => true,
        },
        DownloadStatus::Paused { attempt } => match to {
            DownloadStatus::Running { attempt: a, .. } => a == attempt,
            DownloadStatus::Completed { .. } => true,
            DownloadStatus::Failed { .. } => true,
            DownloadStatus::Cancelled => true,
            _ => false,
        },
        _ => false,
    }
}

/// A status that has ended stays in the table whatever is published for
/// its job.
pub proof fn law_table_keeps_terminal(from: DownloadStatus, to: DownloadStatus)
    requires
        from.terminal(),
    ensures
        !from.may_become(to),
{
}

} // verus!
