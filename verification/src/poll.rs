//! The supervisor: race a fixed set of pollers, tear the group down on
//! first failure.
//!
//! A connection runs every registered poller concurrently against one
//! shared memory accessor. Each poller's only terminal outcome is a
//! failure. The supervisor waits for the first poller to terminate,
//! cancels every other still-running poller, waits for each to fully
//! acknowledge and unwind, and only then reports the first failure — the
//! reasons of cancelled siblings are discarded. The join-before-return
//! step is what keeps an in-flight blocking read from outliving the
//! accessor: the accessor becomes eligible for teardown only once every
//! poller task has unwound.
//!
//! [`SupervisorRun`] is that protocol as a state machine. The caller
//! (the scheduler glue) feeds it terminations in wall-clock order —
//! first the poller the race was won by, then each sibling as its
//! cancellation is acknowledged; a sibling that fails naturally before
//! its cancellation lands is fed as a failure too, and its reason is
//! discarded. The model functions pin each transition down, and the
//! lemmas at the end state first-failure-wins and the teardown barrier.

use vstd::prelude::*;

use crate::hdmem::MemError;

verus! {

/// The closed set of poller variants a runner can register. There is one
/// concrete poller: the pace sampler of [`crate::pollers`].
#[derive(Debug, Clone, Copy, PartialEq, Eq, Structural)]
pub enum PollerKind {
    Pace,
}

/// Whether one poller task is still live, or has terminated and fully
/// unwound (by its own failure or by acknowledged cancellation).
#[derive(Debug, Clone, Copy, PartialEq, Eq, Structural)]
pub enum PollerStatus {
    Running,
    Unwound,
}

/// The fixed registry of pollers for a connection, assembled once at
/// startup.
pub struct PollRunner {
    /// The registered pollers, in registration order.
    pub pollers: Vec<PollerKind>,
}

/// The supervisor's state as the contracts speak of it: each poller's
/// status, and the reason of the first failure if one has been reported.
pub struct SupModel {
    pub statuses: Seq<PollerStatus>,
    pub first_failure: Option<MemError>,
}

impl SupModel {
    /// Every poller task has terminated and fully unwound.
    pub open spec fn all_unwound(self) -> bool {
        forall|i: int| 0 <= i < self.statuses.len() ==> self.statuses[i] is Unwound
    }

    /// The run's result: available only once a failure was reported and
    /// every poller has unwound — before that, the supervisor must keep
    /// waiting.
    pub open spec fn outcome(self) -> Option<MemError> {
        if self.first_failure is Some && self.all_unwound() {
            self.first_failure
        } else {
            None
        }
    }
}

/// A poller termination, in wall-clock order of occurrence: either task
/// `i` failed with a reason, or task `i` acknowledged its cancellation
/// and unwound without one.
#[derive(Debug, Clone, Copy, PartialEq, Eq, Structural)]
pub enum SupEvent {
    PollerFailed(usize, MemError),
    CancelAcked(usize),
}

/// Whether `ev` can happen in state `m`: it must concern a poller that is
/// still running (a task terminates exactly once).
pub open spec fn sup_accepts(m: SupModel, ev: SupEvent) -> bool {
    match ev {
        SupEvent::PollerFailed(i, _) => i < m.statuses.len() && m.statuses[i as int] is Running,
        SupEvent::CancelAcked(i) => i < m.statuses.len() && m.statuses[i as int] is Running,
    }
}

/// One supervisor transition: the poller concerned is unwound; the first
/// reported failure reason is kept, every later one is discarded
/// (first-failure-wins, no aggregation).
pub open spec fn sup_apply(m: SupModel, ev: SupEvent) -> SupModel {
    match ev {
        SupEvent::PollerFailed(i, e) => SupModel {
            statuses: m.statuses.update(i as int, PollerStatus::Unwound),
            first_failure: if m.first_failure is None {
                Some(e)
            } else {
                m.first_failure
            },
        },
        SupEvent::CancelAcked(i) => SupModel {
            statuses: m.statuses.update(i as int, PollerStatus::Unwound),
            first_failure: m.first_failure,
        },
    }
}

/// A whole supervised run: the state after the terminations `evs`, fed in
/// wall-clock order.
pub open spec fn sup_run(m: SupModel, evs: Seq<SupEvent>) -> SupModel
    decreases evs.len(),
{
    if evs.len() == 0 {
        m
    } else {
        sup_run(sup_apply(m, evs[0]), evs.drop_first())
    }
}

/// The live state of one supervised run.
pub struct SupervisorRun {
    /// Status of each poller, by registration index.
    pub statuses: Vec<PollerStatus>,
    /// The reason of the first poller to fail, once one has.
    pub first_failure: Option<MemError>,
}

impl SupervisorRun {
    /// The state as [`SupModel`] speaks of it.
    pub open spec fn model(self) -> SupModel {
        SupModel { statuses: self.statuses@, first_failure: self.first_failure }
    }

    /// Poller task `i` terminated with failure `err`. If it is the first
    /// to terminate, its reason becomes the run's reason and every other
    /// poller must now be cancelled; a later failure (a sibling that
    /// failed before its cancellation landed) is discarded. Returns true
    /// when this failure is the one the run will report.
    pub fn on_poller_failed(&mut self, i: usize, err: MemError) -> (won: bool)
        requires
            sup_accepts(old(self).model(), SupEvent::PollerFailed(i, err)),
        ensures
            final(self).model() == sup_apply(old(self).model(), SupEvent::PollerFailed(i, err)),
            won <==> old(self).first_failure is None,
    {
        self.statuses[i] = PollerStatus::Unwound;
        match self.first_failure {
            None => {
                self.first_failure = Some(err);
                true
            },
            Some(_) => false,
        }
    }

    /// Poller task `i` acknowledged its cancellation and fully unwound.
    pub fn on_cancel_acked(&mut self, i: usize)
        requires
            sup_accepts(old(self).model(), SupEvent::CancelAcked(i)),
        ensures
            final(self).model() == sup_apply(old(self).model(), SupEvent::CancelAcked(i)),
    {
        self.statuses[i] = PollerStatus::Unwound;
    }

    /// The registration indices of the pollers that are still running and
    /// must be cancelled once a failure was reported: exactly the running
    /// ones, each once, in registration order.
    pub fn to_cancel(&self) -> (r: Vec<usize>)
        ensures
            forall|k: int|
                0 <= k < r@.len() ==> r@[k] < self.statuses@.len() && self.statuses@[r@[k] as int]
                    is Running,
            forall|i: int|
                0 <= i < self.statuses@.len() && self.statuses@[i] is Running ==> r@.contains(
                    i as usize,
                ),
            forall|k1: int, k2: int| 0 <= k1 < k2 < r@.len() ==> r@[k1] < r@[k2],
    {
        let mut r: Vec<usize> = Vec::new();
        let mut i: usize = 0;
        while i < self.statuses.len()
            invariant
                i <= self.statuses@.len(),
                forall|k: int|
                    0 <= k < r@.len() ==> r@[k] < self.statuses@.len() && self.statuses@[r@[k] as int]
                        is Running,
                forall|j: int|
                    0 <= j < i && self.statuses@[j] is Running ==> r@.contains(j as usize),
                forall|k: int| 0 <= k < r@.len() ==> r@[k] < i,
                forall|k1: int, k2: int| 0 <= k1 < k2 < r@.len() ==> r@[k1] < r@[k2],
            decreases self.statuses@.len() - i,
        {
            if matches!(self.statuses[i], PollerStatus::Running) {
                let ghost r0 = r@;
                r.push(i);
                proof {
                    assert forall|j: int|
                        0 <= j < i + 1 && self.statuses@[j] is Running implies r@.contains(
                        j as usize,
                    ) by {
                        if j < i {
                            let k = choose|k: int| 0 <= k < r0.len() && r0[k] == j as usize;
                            assert(r@[k] == j as usize);
                        } else {
                            assert(r@[r0.len() as int] == i as usize);
                        }
                    }
                }
            }
            i = i + 1;
        }
        r
    }

    /// The run's result: `Some` exactly when a failure was reported and
    /// every poller has unwound. Only then may the shared accessor be
    /// torn down; until then the supervisor keeps waiting.
    pub fn outcome(&self) -> (r: Option<MemError>)
        ensures
            r == self.model().outcome(),
            r is Some ==> self.model().all_unwound(),
    {
        match self.first_failure {
            None => None,
            Some(e) => {
                let mut i: usize = 0;
                while i < self.statuses.len()
                    invariant
                        i <= self.statuses@.len(),
                        self.first_failure == Some(e),
                        forall|j: int| 0 <= j < i ==> self.statuses@[j] is Unwound,
                    decreases self.statuses@.len() - i,
                {
                    if matches!(self.statuses[i], PollerStatus::Running) {
                        return None;
                    }
                    i = i + 1;
                }
                Some(e)
            },
        }
    }
}

impl PollRunner {
    /// An empty registry.
    pub fn new() -> (r: Self)
        ensures
            r.pollers@.len() == 0,
    {
        PollRunner { pollers: Vec::new() }
    }

    /// Registers one more poller.
    pub fn add(&mut self, poller: PollerKind)
        ensures
            final(self).pollers@ == old(self).pollers@.push(poller),
    {
        self.pollers.push(poller);
    }

    /// Starts a supervised run: every registered poller is launched and
    /// live, no failure has been reported. Racing an empty registry is a
    /// programming error, rejected before anything is launched.
    pub fn start(&self) -> (r: SupervisorRun)
        requires
            self.pollers@.len() >= 1,
        ensures
            r.model().statuses.len() == self.pollers@.len(),
            forall|i: int| 0 <= i < r.model().statuses.len() ==> r.model().statuses[i] is Running,
            r.model().first_failure is None,
    {
        let n = self.pollers.len();
        let mut statuses: Vec<PollerStatus> = Vec::new();
        let mut i: usize = 0;
        while i < n
            invariant
                i <= n,
                statuses@.len() == i,
                forall|j: int| 0 <= j < i ==> statuses@[j] is Running,
            decreases n - i,
        {
            statuses.push(PollerStatus::Running);
            i = i + 1;
        }
        SupervisorRun { statuses, first_failure: None }
    }
}

/// Once a failure reason is recorded it is never replaced: every later
/// termination leaves it as it is.
pub proof fn lemma_failure_sticky(m: SupModel, evs: Seq<SupEvent>)
    requires
        m.first_failure is Some,
    ensures
        sup_run(m, evs).first_failure == m.first_failure,
    decreases evs.len(),
{
    if evs.len() > 0 {
        lemma_failure_sticky(sup_apply(m, evs[0]), evs.drop_first());
    }
}

/// First-failure-wins: whatever pollers are registered and in whatever
/// order, a run that begins with no reported failure reports the reason
/// of the poller whose failure arrives first in wall-clock order,
/// whatever terminations follow.
pub proof fn lemma_first_failure_wins(m: SupModel, evs: Seq<SupEvent>, i: usize, e: MemError)
    requires
        m.first_failure is None,
        evs.len() > 0,
        evs[0] == SupEvent::PollerFailed(i, e),
    ensures
        sup_run(m, evs).first_failure == Some(e),
{
    lemma_failure_sticky(sup_apply(m, evs[0]), evs.drop_first());
}

/// Teardown barrier: a run only has an outcome once every poller task has
/// unwound, so nothing that still references the shared accessor can be
/// in flight when the accessor becomes eligible for teardown.
pub proof fn lemma_teardown_waits_for_all(m: SupModel)
    ensures
        m.outcome() is Some ==> m.all_unwound(),
{
}

} // verus!
