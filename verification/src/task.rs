//! Tasks and their wake status.
//!
//! A task is a suspendable computation driven by repeated poll steps. The
//! [`SuspendableTask`] trait models one poll step as a deterministic
//! transition (`poll_next`) together with a flag saying whether the step
//! wakes the task's own conduit synchronously (`poll_wakes`). The
//! [`StatusTask`] wrapper decorates a task with an explicit
//! Woken / Asleep status cell, default Woken, so that every task is
//! polled at least once.

use vstd::prelude::*;

verus! {

/// The two-state wake flag attached to each task. A task is polled in a
/// round exactly when it is `Woken` and not yet terminated.
#[derive(Clone, Copy, Debug, PartialEq, Eq, Structural)]
pub enum WakeStatus {
    Woken,
    Asleep,
}

/// What one poll step reported: the task either finished, or suspended
/// again, possibly after waking its own conduit during the step.
#[derive(Clone, Copy, Debug, PartialEq, Eq, Structural)]
pub enum PollStep {
    Done,
    Pending { woke: bool },
}

/// A terminating suspendable computation.
///
/// One poll step takes the task from its current state to
/// `poll_next()`; the step reports `Done` exactly when the new state is
/// terminated, and otherwise reports whether the task woke itself
/// synchronously during the step (`poll_wakes()`).
///
/// A task is `driven()` when it advances entirely on its own: every
/// pending poll step wakes the task again, and a bounded number of steps
/// (`poll_bound()`) remains until it terminates. Driven tasks are the
/// ones a run loop can finish without any external wake.
pub trait SuspendableTask: Sized {
    /// Whether the computation has finished. Once true, the task must
    /// not be polled again.
    spec fn terminated(&self) -> bool;

    /// The state after one more poll step.
    spec fn poll_next(&self) -> Self;

    /// Whether the next poll step wakes the task's own conduit
    /// synchronously.
    spec fn poll_wakes(&self) -> bool;

    /// Whether the task advances to termination without external wakes.
    spec fn driven(&self) -> bool;

    /// An upper bound on the poll steps left until termination,
    /// meaningful for driven tasks.
    spec fn poll_bound(&self) -> nat;

    /// A driven, unterminated task stays driven, and each pending step
    /// self-wakes and strictly lowers the remaining poll bound.
    proof fn lemma_driven_progress(&self)
        requires
            !self.terminated(),
            self.driven(),
        ensures
            self.poll_next().driven(),
            !self.poll_next().terminated() ==> self.poll_wakes(),
            !self.poll_next().terminated() ==> self.poll_next().poll_bound() < self.poll_bound(),
    ;

    /// Runs the computation until it finishes or reaches its next
    /// suspension point.
    fn poll(&mut self) -> (r: PollStep)
        requires
            !old(self).terminated(),
        ensures
            *final(self) == old(self).poll_next(),
            r == (if old(self).poll_next().terminated() {
                PollStep::Done
            } else {
                PollStep::Pending { woke: old(self).poll_wakes() }
            }),
    ;

    /// Whether the computation has finished.
    fn is_terminated(&self) -> (r: bool)
        ensures
            r == self.terminated(),
    ;
}

/// A task decorated with its wake status.
///
/// The status cell starts as `Woken`, so a freshly wrapped task is due in
/// the first round. The wrapped computation is left untouched by status
/// reads and writes.
pub struct StatusTask<T> {
    /// The wrapped suspendable computation.
    pub task: T,
    /// The task's current wake status.
    pub status: WakeStatus,
}

impl<T: SuspendableTask> StatusTask<T> {
    /// Wraps a computation; the initial status is `Woken`.
    pub fn new(task: T) -> (s: Self)
        ensures
            s.task == task,
            s.status == WakeStatus::Woken,
    {
        StatusTask { task, status: WakeStatus::Woken }
    }

    /// Reads the wake status.
    pub fn status(&self) -> (r: WakeStatus)
        ensures
            r == self.status,
    {
        self.status
    }

    /// Writes the wake status in place, without disturbing the wrapped
    /// computation.
    pub fn set_status(&mut self, status: WakeStatus)
        ensures
            final(self).status == status,
            final(self).task == old(self).task,
    {
        self.status = status;
    }

    /// Delegates the termination check to the wrapped computation.
    pub fn is_terminated(&self) -> (r: bool)
        ensures
            r == self.task.terminated(),
    {
        self.task.is_terminated()
    }

    /// Binds a wake conduit to this wrapper's status cell: the conduit
    /// takes over the cell's current value, so that an external wake
    /// through the conduit reaches the wrapped task.
    pub fn bind_conduit(&self, marshall: &mut crate::marshall::SingleThreadMarshall)
        ensures
            final(marshall).is_registered(),
            final(marshall).flag_set() == (self.status == WakeStatus::Woken),
    {
        marshall.register(self.status == WakeStatus::Woken);
    }

    /// Unbinds a wake conduit and writes the flag it carried back into
    /// this wrapper's status cell: a wake delivered through the conduit
    /// while it was bound leaves the task woken.
    pub fn unbind_conduit(&mut self, marshall: &mut crate::marshall::SingleThreadMarshall)
        ensures
            !final(marshall).is_registered(),
            final(self).task == old(self).task,
            final(self).status == (if old(marshall).flag_set() {
                WakeStatus::Woken
            } else {
                WakeStatus::Asleep
            }),
    {
        let woken = marshall.unregister();
        if woken {
            self.set_status(WakeStatus::Woken);
        } else {
            self.set_status(WakeStatus::Asleep);
        }
    }

    /// Delegates one poll step to the wrapped computation.
    pub fn poll(&mut self) -> (r: PollStep)
        requires
            !old(self).task.terminated(),
        ensures
            final(self).task == old(self).task.poll_next(),
            final(self).status == old(self).status,
            r == (if old(self).task.poll_next().terminated() {
                PollStep::Done
            } else {
                PollStep::Pending { woke: old(self).task.poll_wakes() }
            }),
    {
        self.task.poll()
    }
}

/// A scripted computation: it suspends a fixed number of times and then
/// terminates, optionally waking itself at every suspension point.
///
/// A script with one remaining poll terminates on its first poll; a
/// script that does not wake itself suspends and then waits for an
/// external wake before it can be polled again.
pub struct ScriptTask {
    /// The poll steps left until the script terminates.
    pub remaining: usize,
    /// Whether the script wakes itself at each suspension point.
    pub wake_on_pending: bool,
    /// Whether the script has terminated.
    pub done: bool,
}

impl ScriptTask {
    /// The poll steps left until the script terminates.
    pub open spec fn spec_remaining(&self) -> nat {
        self.remaining as nat
    }

    /// Whether the script wakes itself at each suspension point.
    pub open spec fn wakes_itself(&self) -> bool {
        self.wake_on_pending
    }

    /// A script that terminates after exactly `polls` poll steps.
    ///
    /// With `self_wake` set, the script wakes itself at every suspension
    /// point and therefore runs to completion without external wakes.
    pub fn new(polls: usize, self_wake: bool) -> (t: Self)
        requires
            polls >= 1,
        ensures
            !t.terminated(),
            t.spec_remaining() == polls,
            t.wakes_itself() == self_wake,
    {
        ScriptTask { remaining: polls, wake_on_pending: self_wake, done: false }
    }

    /// The poll steps left until the script terminates.
    pub fn remaining_polls(&self) -> (r: usize)
        ensures
            r == self.spec_remaining(),
    {
        self.remaining
    }
}

impl SuspendableTask for ScriptTask {
    open spec fn terminated(&self) -> bool {
        self.done
    }

    open spec fn poll_next(&self) -> Self {
        if self.remaining <= 1 {
            ScriptTask { remaining: 0, wake_on_pending: self.wake_on_pending, done: true }
        } else {
            ScriptTask { remaining: (self.remaining - 1) as usize, ..*self }
        }
    }

    open spec fn poll_wakes(&self) -> bool {
        self.wake_on_pending
    }

    open spec fn driven(&self) -> bool {
        self.wake_on_pending || self.remaining <= 1
    }

    open spec fn poll_bound(&self) -> nat {
        self.remaining as nat
    }

    proof fn lemma_driven_progress(&self) {
    }

    fn poll(&mut self) -> (r: PollStep) {
        if self.remaining <= 1 {
            self.remaining = 0;
            self.done = true;
            PollStep::Done
        } else {
            self.remaining = self.remaining - 1;
            PollStep::Pending { woke: self.wake_on_pending }
        }
    }

    fn is_terminated(&self) -> (r: bool) {
        self.done
    }
}

} // verus!
