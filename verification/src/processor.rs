//! The per-core state record.
//!
//! One `Processor` exists per configured core. It owns exactly the state a
//! kernel needs to decide which task runs next on that core: the FIFO ready
//! queue, the running task, the stack-pool slot, an opaque handle naming the
//! scheduling policy the core delegates to, the core's fixed identity, and
//! the next timer deadline. Only data lives here; scheduling policy is
//! decided elsewhere, through the stored handle, which this module never
//! interprets.

use vstd::prelude::*;

use crate::id::TaskId;
use crate::ready_queue::ReadyQueue;
use crate::stack_pool::{RunningStack, StackPool};

verus! {

/// Mathematical view of one core's state record.
#[verifier::ext_equal]
pub ghost struct CoreView {
    /// Tasks waiting to run on this core, in arrival order (front first).
    pub tasks: Seq<TaskId>,
    /// The task presently executing on this core, if a switch has committed.
    pub current: Option<TaskId>,
    /// The stack installed in this core's stack-pool slot.
    pub stack: Option<RunningStack>,
    /// Opaque handle naming the scheduling policy this core delegates to;
    /// zero means "unset".
    pub scheduler_ptr: usize,
    /// The core's logical index, fixed once constructed.
    pub cpu_id: usize,
    /// Whether this is the first core brought up.
    pub is_boot_core: bool,
    /// The tick at which this core's timer should next fire.
    pub next_timer_deadline: u64,
}

/// The view of a freshly constructed record for core `cpu_id`: empty ready
/// queue, no running task, empty stack slot, scheduler handle unset, timer
/// deadline zero.
pub open spec fn fresh_core(cpu_id: usize, is_boot_core: bool) -> CoreView {
    CoreView {
        tasks: Seq::<TaskId>::empty(),
        current: None,
        stack: None,
        scheduler_ptr: 0,
        cpu_id,
        is_boot_core,
        next_timer_deadline: 0,
    }
}

/// The state record a core owns.
pub struct Processor {
    ready_queue: ReadyQueue,
    current_task: Option<TaskId>,
    stack_pool: StackPool,
    scheduler_ptr: usize,
    cpu_id: usize,
    is_boot_core: bool,
    next_timer_deadline: u64,
}

impl View for Processor {
    type V = CoreView;

    closed spec fn view(&self) -> CoreView {
        CoreView {
            tasks: self.ready_queue@,
            current: self.current_task,
            stack: self.stack_pool@,
            scheduler_ptr: self.scheduler_ptr,
            cpu_id: self.cpu_id,
            is_boot_core: self.is_boot_core,
            next_timer_deadline: self.next_timer_deadline,
        }
    }
}

impl Processor {
    /// A freshly constructed record for core `cpu_id`: empty ready queue, no
    /// running task, empty stack slot, scheduler handle unset, timer
    /// deadline zero.
    pub fn new(cpu_id: usize, is_boot_core: bool) -> (r: Processor)
        ensures
            r@ == fresh_core(cpu_id, is_boot_core),
    {
        Processor {
            ready_queue: ReadyQueue::new(),
            current_task: None,
            stack_pool: StackPool::new(),
            scheduler_ptr: 0,
            cpu_id,
            is_boot_core,
            next_timer_deadline: 0,
        }
    }

    /// The stored scheduler handle.
    pub fn get_scheduler_ptr(&self) -> (r: usize)
        ensures
            r == self@.scheduler_ptr,
    {
        self.scheduler_ptr
    }

    /// Overwrites the stored scheduler handle.
    pub fn set_scheduler_ptr(&mut self, scheduler_ptr: usize)
        ensures
            final(self)@ == (CoreView { scheduler_ptr, ..old(self)@ }),
    {
        self.scheduler_ptr = scheduler_ptr;
    }

    /// Pops one task from this core's ready queue; `None` when it is empty.
    pub(crate) fn pick_next_task(&mut self) -> (r: Option<TaskId>)
        ensures
            old(self)@.tasks.len() == 0 ==> r is None && final(self)@ == old(self)@,
            old(self)@.tasks.len() > 0 ==> r == Some(old(self)@.tasks[0]) && final(self)@
                == (CoreView { tasks: old(self)@.tasks.drop_first(), ..old(self)@ }),
    {
        self.ready_queue.pop()
    }

    /// Re-enqueues a task this core just stopped running. The front hint is
    /// accepted but placement is always at the back: a documented
    /// limitation, kept as stated rather than silently corrected.
    pub(crate) fn put_prev_task(&mut self, task: TaskId, _front: bool)
        ensures
            final(self)@ == (CoreView { tasks: old(self)@.tasks.push(task), ..old(self)@ }),
    {
        self.ready_queue.push(task);
    }

    /// Enqueues a task at the back of this core's ready queue. A task, once
    /// resident on a core, stays on that core: there is no migration path.
    pub(crate) fn add_task(&mut self, task: TaskId)
        ensures
            final(self)@ == (CoreView { tasks: old(self)@.tasks.push(task), ..old(self)@ }),
    {
        self.ready_queue.push(task);
    }

    /// The number of tasks waiting on this core.
    pub(crate) fn ready_len(&self) -> (r: usize)
        ensures
            r == self@.tasks.len(),
    {
        self.ready_queue.len()
    }

    /// The task presently executing on this core, if any.
    pub fn current_task(&self) -> (r: Option<TaskId>)
        ensures
            r == self@.current,
    {
        self.current_task
    }

    /// Records `task` as the task presently executing on this core.
    pub fn set_current_task(&mut self, task: TaskId)
        ensures
            final(self)@ == (CoreView { current: Some(task), ..old(self)@ }),
    {
        self.current_task = Some(task);
    }

    /// Seeds this core's stack-pool slot with the boot stack, given by its
    /// address.
    pub fn init_running_stack(&mut self, curr_boot_stack: usize)
        ensures
            final(self)@ == (CoreView {
                stack: Some(RunningStack { base: curr_boot_stack }),
                ..old(self)@
            }),
    {
        self.stack_pool.init(curr_boot_stack);
    }

    /// Removes and returns ownership of the presently installed stack.
    pub fn pick_current_stack(&mut self) -> (r: RunningStack)
        requires
            old(self)@.stack is Some,
        ensures
            r == old(self)@.stack.unwrap(),
            final(self)@ == (CoreView { stack: None, ..old(self)@ }),
    {
        self.stack_pool.pick_current_stack()
    }

    /// Borrows the presently installed stack.
    pub fn current_stack(&self) -> (r: &RunningStack)
        requires
            self@.stack is Some,
        ensures
            *r == self@.stack.unwrap(),
    {
        self.stack_pool.current_stack()
    }

    /// Installs `stack` as this core's active stack.
    pub fn set_current_stack(&mut self, stack: RunningStack)
        ensures
            final(self)@ == (CoreView { stack: Some(stack), ..old(self)@ }),
    {
        self.stack_pool.set_current_stack(stack);
    }

    /// The core's fixed logical index.
    pub fn cpu_id(&self) -> (r: usize)
        ensures
            r == self@.cpu_id,
    {
        self.cpu_id
    }

    /// Whether this is the first core that was brought up.
    pub fn is_boot_core(&self) -> (r: bool)
        ensures
            r == self@.is_boot_core,
    {
        self.is_boot_core
    }

    /// The tick at which this core's timer should next fire.
    pub fn get_timer_next_deadline(&self) -> (r: u64)
        ensures
            r == self@.next_timer_deadline,
    {
        self.next_timer_deadline
    }

    /// Overwrites the next timer deadline. No monotonicity is enforced: a
    /// later write with a smaller tick simply wins.
    pub fn set_timer_next_deadline(&mut self, deadline: u64)
        ensures
            final(self)@ == (CoreView { next_timer_deadline: deadline, ..old(self)@ }),
    {
        self.next_timer_deadline = deadline;
    }
}

} // verus!
