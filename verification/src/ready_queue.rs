//! The per-core ready queue.
//!
//! A first-in-first-out queue of task handles: `push` admits a task at the
//! back, `pop` removes the task at the front. Queues of distinct cores are
//! distinct values and are never merged, so a task pushed onto one core's
//! queue can only ever come back out of a pop on that same queue.

use vstd::prelude::*;

use crate::id::TaskId;

verus! {

/// FIFO queue of task handles, viewed as the sequence of waiting tasks in
/// arrival order (front first).
pub struct ReadyQueue {
    items: Vec<TaskId>,
}

impl View for ReadyQueue {
    type V = Seq<TaskId>;

    closed spec fn view(&self) -> Seq<TaskId> {
        self.items@
    }
}

impl ReadyQueue {
    /// An empty queue.
    pub fn new() -> (r: ReadyQueue)
        ensures
            r@ == Seq::<TaskId>::empty(),
    {
        ReadyQueue { items: Vec::new() }
    }

    /// Admits `task` at the back of the queue.
    pub fn push(&mut self, task: TaskId)
        ensures
            final(self)@ == old(self)@.push(task),
    {
        self.items.push(task);
    }

    /// Removes and returns the task at the front, or `None` when the queue
    /// is empty.
    pub fn pop(&mut self) -> (r: Option<TaskId>)
        ensures
            old(self)@.len() == 0 ==> r is None && final(self)@ == old(self)@,
            old(self)@.len() > 0 ==> r == Some(old(self)@[0]) && final(self)@ == old(self)@.drop_first(),
    {
        if self.items.len() == 0 {
            None
        } else {
            let t = self.items.remove(0);
            proof {
                assert(old(self)@.remove(0) =~= old(self)@.drop_first());
            }
            Some(t)
        }
    }

    /// The number of tasks waiting in the queue.
    pub fn len(&self) -> (r: usize)
        ensures
            r == self@.len(),
    {
        self.items.len()
    }
}

} // verus!
