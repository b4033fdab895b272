//! The run loop: scans the task set round by round, polls every due
//! task, and stops once all tasks have terminated.
//!
//! One round is modelled exactly by [`round_spec`]: a task is selected
//! when it is simultaneously not terminated and currently woken; its
//! status is reset to asleep before the poll step, so a wake delivered
//! synchronously during the step is kept for the next round instead of
//! being overwritten. Tasks are polled in ascending slot-index order.
//!
//! The loop does not re-arm sleeping tasks. A task set finishes on its
//! own only when every unterminated task is driven — it self-wakes at
//! every suspension point — and currently woken; that liveness
//! precondition is what [`Executor::run_to_completion`] requires, and
//! under it the loop provably terminates.

use vstd::prelude::*;

use crate::manager::ArrayTaskManager;
use crate::task::{PollStep, StatusTask, SuspendableTask, WakeStatus};

verus! {

/// The selection rule: a slot is due in a round when its task is not
/// terminated and its status is woken.
pub open spec fn due<T: SuspendableTask>(s: StatusTask<T>) -> bool {
    s.status == WakeStatus::Woken && !s.task.terminated()
}

/// A slot after the polling protocol ran on it: the status was reset to
/// asleep before the poll step, so the task ends the round woken exactly
/// when it woke itself during the step and did not terminate.
pub open spec fn polled_slot<T: SuspendableTask>(s: StatusTask<T>) -> StatusTask<T> {
    StatusTask {
        task: s.task.poll_next(),
        status: if !s.task.poll_next().terminated() && s.task.poll_wakes() {
            WakeStatus::Woken
        } else {
            WakeStatus::Asleep
        },
    }
}

/// One full round over the task set: every due slot is polled once, all
/// other slots are skipped unchanged.
pub open spec fn round_spec<T: SuspendableTask>(s: Seq<StatusTask<T>>) -> Seq<StatusTask<T>> {
    s.map_values(|slot: StatusTask<T>| if due(slot) { polled_slot(slot) } else { slot })
}

/// The run loop's termination condition: every task reports terminated.
pub open spec fn all_terminated<T: SuspendableTask>(s: Seq<StatusTask<T>>) -> bool {
    forall|i: int| 0 <= i < s.len() ==> s[i].task.terminated()
}

/// The liveness precondition: every task that is not yet terminated is
/// driven (it re-wakes itself at every suspension point) and currently
/// woken, so the run loop never waits for a wake that cannot arrive.
pub open spec fn self_driving<T: SuspendableTask>(s: Seq<StatusTask<T>>) -> bool {
    forall|i: int| 0 <= i < s.len() ==> (s[i].task.driven()
        && (s[i].task.terminated() || s[i].status == WakeStatus::Woken))
}

/// How much work one slot can still cause: nothing once terminated,
/// otherwise its remaining poll bound plus the terminating poll itself.
pub open spec fn slot_measure<T: SuspendableTask>(s: StatusTask<T>) -> nat {
    if s.task.terminated() {
        0
    } else {
        s.task.poll_bound() + 1
    }
}

/// The work the whole task set can still cause: the sum of the slot
/// measures.
pub open spec fn round_measure<T: SuspendableTask>(s: Seq<StatusTask<T>>) -> nat
    decreases s.len(),
{
    if s.len() == 0 {
        0
    } else {
        slot_measure(s[0]) + round_measure(s.drop_first())
    }
}

/// A round keeps the liveness precondition: driven tasks stay driven,
/// and a driven task that suspends has woken itself again.
pub proof fn lemma_round_preserves_self_driving<T: SuspendableTask>(s: Seq<StatusTask<T>>)
    requires
        self_driving(s),
    ensures
        self_driving(round_spec(s)),
{
    assert forall|i: int| 0 <= i < round_spec(s).len() implies (round_spec(s)[i].task.driven()
        && (round_spec(s)[i].task.terminated()
            || round_spec(s)[i].status == WakeStatus::Woken)) by {
        assert(s[i].task.driven() && (s[i].task.terminated()
            || s[i].status == WakeStatus::Woken));
        if due(s[i]) {
            s[i].task.lemma_driven_progress();
        }
    }
}

/// A round never increases the measure of a self-driving task set, and
/// strictly lowers it while any task is left unterminated.
pub proof fn lemma_round_measure_decreases<T: SuspendableTask>(s: Seq<StatusTask<T>>)
    requires
        self_driving(s),
    ensures
        round_measure(round_spec(s)) <= round_measure(s),
        !all_terminated(s) ==> round_measure(round_spec(s)) < round_measure(s),
    decreases s.len(),
{
    if s.len() == 0 {
    } else {
        let rest = s.drop_first();
        assert(round_spec(s).drop_first() =~= round_spec(rest));
        assert(self_driving(rest)) by {
            assert forall|i: int| 0 <= i < rest.len() implies (rest[i].task.driven()
                && (rest[i].task.terminated()
                    || rest[i].status == WakeStatus::Woken)) by {
                assert(rest[i] == s[i + 1]);
            }
        }
        lemma_round_measure_decreases(rest);
        assert(s[0].task.driven() && (s[0].task.terminated()
            || s[0].status == WakeStatus::Woken));
        if due(s[0]) {
            s[0].task.lemma_driven_progress();
        }
        assert(slot_measure(round_spec(s)[0]) <= slot_measure(s[0]));
        if !s[0].task.terminated() {
            assert(slot_measure(round_spec(s)[0]) < slot_measure(s[0]));
        }
        if !all_terminated(s) {
            let w = choose|i: int| 0 <= i < s.len() && !s[i].task.terminated();
            if w == 0 {
                assert(slot_measure(round_spec(s)[0]) < slot_measure(s[0]));
            } else {
                assert(rest[w - 1] == s[w]);
                assert(!all_terminated(rest));
            }
        }
    }
}

/// Initial-poll law: in a round over a freshly constructed task set —
/// every status still at its default, woken — each unterminated task is
/// polled, whatever external wakes did or did not arrive.
pub proof fn lemma_initial_poll<T: SuspendableTask>(s: Seq<StatusTask<T>>, i: int)
    requires
        forall|j: int| 0 <= j < s.len() ==> s[j].status == WakeStatus::Woken,
        0 <= i < s.len(),
        !s[i].task.terminated(),
    ensures
        round_spec(s)[i].task == s[i].task.poll_next(),
{
}

/// Status-reset law: a task that wakes itself synchronously during its
/// own poll step leaves the round woken, not asleep, and so is due again
/// in the following round.
pub proof fn lemma_self_wake_eligible<T: SuspendableTask>(s: Seq<StatusTask<T>>, i: int)
    requires
        0 <= i < s.len(),
        due(s[i]),
        s[i].task.poll_wakes(),
        !s[i].task.poll_next().terminated(),
    ensures
        round_spec(s)[i].status == WakeStatus::Woken,
        due(round_spec(s)[i]),
{
}

/// Sleep-suppression law: a task forced asleep before a round starts,
/// and not woken again before it, is skipped by that round entirely.
pub proof fn lemma_sleep_suppression<T: SuspendableTask>(s: Seq<StatusTask<T>>, i: int)
    requires
        0 <= i < s.len(),
        !s[i].task.terminated(),
        s[i].status == WakeStatus::Asleep,
    ensures
        round_spec(s)[i] == s[i],
{
}

/// The executor: holds the task manager and the event-source registry
/// for the duration of a run and hands both back through its public
/// fields afterwards.
///
/// The registry is the hook point for translating external readiness
/// into task wakes between rounds; the run loop itself consults only the
/// task manager.
pub struct Executor<T, P> {
    /// The task set being driven.
    pub manager: ArrayTaskManager<T>,
    /// The event-source registry available to the surrounding platform
    /// layer while the run is in progress.
    pub pool: P,
}

impl<T: SuspendableTask, P> Executor<T, P> {
    /// Takes the task manager and the registry for a run.
    pub fn new(manager: ArrayTaskManager<T>, pool: P) -> (e: Self)
        ensures
            e.manager@ == manager@,
            e.pool == pool,
    {
        Executor { manager, pool }
    }

    /// Whether every task reports terminated: the run loop's exit check,
    /// one full scan of the task set.
    pub fn all_done(&self) -> (r: bool)
        ensures
            r == all_terminated(self.manager@),
    {
        let n = self.manager.len();
        let mut i: usize = 0;
        while i < n
            invariant
                i <= n,
                n == self.manager@.len(),
                forall|j: int| 0 <= j < i ==> self.manager@[j].task.terminated(),
            decreases n - i,
        {
            if !self.manager.is_terminated(i) {
                return false;
            }
            i = i + 1;
        }
        true
    }

    /// Runs one round: polls every due task once, in ascending
    /// slot-index order, resetting each task's status to asleep
    /// immediately before its poll step.
    pub fn run_round(&mut self)
        ensures
            final(self).manager@ == round_spec(old(self).manager@),
            final(self).pool == old(self).pool,
    {
        let n = self.manager.len();
        let mut i: usize = 0;
        while i < n
            invariant
                i <= n,
                n == self.manager@.len(),
                self.manager@.len() == old(self).manager@.len(),
                self.pool == old(self).pool,
                forall|j: int| 0 <= j < i ==> self.manager@[j]
                    == round_spec(old(self).manager@)[j],
                forall|j: int| i <= j < n ==> self.manager@[j] == old(self).manager@[j],
            decreases n - i,
        {
            let ghost entry = self.manager@[i as int];
            if !self.manager.is_terminated(i) && self.manager.status(i) == WakeStatus::Woken {
                self.manager.set_status(i, WakeStatus::Asleep);
                let step = self.manager.poll_task(i);
                match step {
                    PollStep::Done => {},
                    PollStep::Pending { woke } => {
                        if woke {
                            self.manager.set_status(i, WakeStatus::Woken);
                        }
                    },
                }
                assert(self.manager@[i as int] == polled_slot(entry));
            }
            i = i + 1;
        }
        proof {
            assert(self.manager@ =~= round_spec(old(self).manager@));
        }
    }

    /// Runs rounds until every task has terminated.
    ///
    /// The precondition is the liveness requirement: every unterminated
    /// task must be driven and currently woken, so that no task ever
    /// waits for a wake nothing will deliver. Under it the loop
    /// provably terminates; it never returns while any task is left
    /// unterminated.
    pub fn run_to_completion(&mut self)
        requires
            self_driving(old(self).manager@),
        ensures
            all_terminated(final(self).manager@),
            final(self).manager@.len() == old(self).manager@.len(),
            final(self).pool == old(self).pool,
    {
        loop
            invariant
                self_driving(self.manager@),
                self.manager@.len() == old(self).manager@.len(),
                self.pool == old(self).pool,
            ensures
                all_terminated(self.manager@),
            decreases round_measure(self.manager@),
        {
            if self.all_done() {
                break;
            }
            proof {
                lemma_round_preserves_self_driving(self.manager@);
                lemma_round_measure_decreases(self.manager@);
            }
            self.run_round();
        }
    }
}

} // verus!
