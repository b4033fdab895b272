//! The bounded task manager: a fixed array of task slots.
//!
//! Slots are addressed by stable index; the number of slots is fixed at
//! construction and never changes, so a task's storage never moves once
//! the manager owns it. All access is mediated by index, which keeps
//! every borrow scoped to a single operation.

use vstd::prelude::*;

use crate::task::{PollStep, StatusTask, SuspendableTask, WakeStatus};

verus! {

/// A cursor that yields one element at a time and cannot be restarted
/// mid-flight: each call to `next` either advances by one position or
/// reports exhaustion.
pub trait StreamingIterator: Sized {
    type Item;

    /// How many elements are left to yield.
    spec fn remaining(&self) -> nat;

    /// The element the cursor currently stands on.
    spec fn current(&self) -> Self::Item;

    /// The cursor's state after one yielding step.
    spec fn advanced(&self) -> Self;

    /// Yields the current element and advances, or reports exhaustion.
    fn next(&mut self) -> (r: Option<Self::Item>)
        ensures
            old(self).remaining() > 0 ==> (r == Some(old(self).current())
                && *final(self) == old(self).advanced()
                && final(self).remaining() == old(self).remaining() - 1),
            old(self).remaining() == 0 ==> (r is None && *final(self) == *old(self)),
    ;
}

/// A single-pass cursor over the slot indices of an [`ArrayTaskManager`].
///
/// Each yielded index is a handle to one slot; the caller turns it into
/// an exclusive access scoped to one manager operation, so no two live
/// accesses to the same slot can coexist.
pub struct ArrayTaskManagerIter {
    index: usize,
    limit: usize,
}

impl StreamingIterator for ArrayTaskManagerIter {
    type Item = usize;

    closed spec fn remaining(&self) -> nat {
        if self.index <= self.limit {
            (self.limit - self.index) as nat
        } else {
            0
        }
    }

    closed spec fn current(&self) -> usize {
        self.index
    }

    closed spec fn advanced(&self) -> Self {
        ArrayTaskManagerIter { index: (self.index + 1) as usize, limit: self.limit }
    }

    fn next(&mut self) -> (r: Option<usize>) {
        if self.index < self.limit {
            let i = self.index;
            self.index = i + 1;
            Some(i)
        } else {
            None
        }
    }
}

impl ArrayTaskManagerIter {
    /// A yielding step of the array cursor moves to the next slot index:
    /// the yielded index rises by one and one fewer slot remains. A full
    /// traversal therefore yields the slot indices in strictly ascending
    /// order, each exactly once, before it reports exhaustion.
    pub proof fn lemma_advanced_steps(&self)
        requires
            self.remaining() > 0,
        ensures
            self.advanced().current() == self.current() + 1,
            self.advanced().remaining() == self.remaining() - 1,
    {
    }
}

/// A task manager backed by a fixed array of slots, each holding one
/// status-decorated task.
pub struct ArrayTaskManager<T> {
    slots: Vec<StatusTask<T>>,
}

impl<T> View for ArrayTaskManager<T> {
    type V = Seq<StatusTask<T>>;

    closed spec fn view(&self) -> Seq<StatusTask<T>> {
        self.slots@
    }
}

impl<T: SuspendableTask> ArrayTaskManager<T> {
    /// Builds a manager that owns exactly the given slots; their order
    /// fixes the slot indices for the manager's whole lifetime.
    pub fn new(slots: Vec<StatusTask<T>>) -> (m: Self)
        ensures
            m@ == slots@,
    {
        ArrayTaskManager { slots }
    }

    /// The number of slots, fixed at construction.
    pub fn len(&self) -> (n: usize)
        ensures
            n == self@.len(),
    {
        self.slots.len()
    }

    /// A shared view of the task at slot `i`, or nothing if `i` is out
    /// of range.
    pub fn get_task(&self, i: usize) -> (r: Option<&StatusTask<T>>)
        ensures
            i < self@.len() ==> (r is Some && *r->Some_0 == self@[i as int]),
            i >= self@.len() ==> r is None,
    {
        if i < self.slots.len() {
            Some(&self.slots[i])
        } else {
            None
        }
    }

    /// Reads the wake status of slot `i`.
    pub fn status(&self, i: usize) -> (r: WakeStatus)
        requires
            i < self@.len(),
        ensures
            r == self@[i as int].status,
    {
        self.slots[i].status()
    }

    /// Whether the task at slot `i` has terminated.
    pub fn is_terminated(&self, i: usize) -> (r: bool)
        requires
            i < self@.len(),
        ensures
            r == self@[i as int].task.terminated(),
    {
        self.slots[i].is_terminated()
    }

    /// Writes the wake status of slot `i`, leaving its task untouched.
    pub fn set_status(&mut self, i: usize, status: WakeStatus)
        requires
            i < old(self)@.len(),
        ensures
            final(self)@ == old(self)@.update(
                i as int,
                (StatusTask { status, ..old(self)@[i as int] }),
            ),
    {
        self.slots[i].set_status(status);
        proof {
            assert(self@ =~= old(self)@.update(
                i as int,
                (StatusTask { status, ..old(self)@[i as int] }),
            ));
        }
    }

    /// Marks the task at slot `i` due again: the wake conduit's path
    /// into the manager. Idempotent.
    pub fn wake_task(&mut self, i: usize)
        requires
            i < old(self)@.len(),
        ensures
            final(self)@ == old(self)@.update(
                i as int,
                (StatusTask { status: WakeStatus::Woken, ..old(self)@[i as int] }),
            ),
    {
        self.set_status(i, WakeStatus::Woken);
    }

    /// Forces the task at slot `i` asleep, parking it outside the normal
    /// wake protocol.
    pub fn sleep_task(&mut self, i: usize)
        requires
            i < old(self)@.len(),
        ensures
            final(self)@ == old(self)@.update(
                i as int,
                (StatusTask { status: WakeStatus::Asleep, ..old(self)@[i as int] }),
            ),
    {
        self.set_status(i, WakeStatus::Asleep);
    }

    /// Forces every task asleep.
    pub fn sleep_all(&mut self)
        ensures
            final(self)@.len() == old(self)@.len(),
            forall|j: int| 0 <= j < old(self)@.len() ==> final(self)@[j]
                == (StatusTask { status: WakeStatus::Asleep, ..old(self)@[j] }),
    {
        let n = self.slots.len();
        let mut i: usize = 0;
        while i < n
            invariant
                n == self@.len(),
                self@.len() == old(self)@.len(),
                i <= n,
                forall|j: int| 0 <= j < i ==> self@[j]
                    == (StatusTask { status: WakeStatus::Asleep, ..old(self)@[j] }),
                forall|j: int| i <= j < n ==> self@[j] == old(self)@[j],
            decreases n - i,
        {
            self.set_status(i, WakeStatus::Asleep);
            i = i + 1;
        }
    }

    /// One poll step of the task at slot `i`; the slot's status is left
    /// as it is.
    pub fn poll_task(&mut self, i: usize) -> (r: PollStep)
        requires
            i < old(self)@.len(),
            !old(self)@[i as int].task.terminated(),
        ensures
            final(self)@ == old(self)@.update(
                i as int,
                (StatusTask {
                    task: old(self)@[i as int].task.poll_next(),
                    ..old(self)@[i as int]
                }),
            ),
            r == (if old(self)@[i as int].task.poll_next().terminated() {
                PollStep::Done
            } else {
                PollStep::Pending { woke: old(self)@[i as int].task.poll_wakes() }
            }),
    {
        let slot = &mut self.slots[i];
        let r = slot.poll();
        proof {
            assert(self@ =~= old(self)@.update(
                i as int,
                (StatusTask {
                    task: old(self)@[i as int].task.poll_next(),
                    ..old(self)@[i as int]
                }),
            ));
        }
        r
    }

    /// A fresh single-pass cursor over all slot indices. The sequence is
    /// restartable per call, but each traversal visits every slot once.
    pub fn tasks(&self) -> (it: ArrayTaskManagerIter)
        ensures
            it.remaining() == self@.len(),
            it.current() == 0usize,
    {
        ArrayTaskManagerIter { index: 0, limit: self.slots.len() }
    }
}

} // verus!
