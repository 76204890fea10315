//! The per-core stack-pool slot.
//!
//! Each core owns one stack pool. At bring-up the pool is seeded with the
//! core's boot stack; thereafter it holds the stack the core is presently
//! executing on. The mechanics of switching stacks belong to the kernel; this
//! module only keeps track of which stack is installed. A stack is identified
//! by its handle: the address the kernel gave it, carried as a plain integer.

use vstd::prelude::*;

verus! {

/// Handle to one execution stack, identified by the address the kernel
/// assigned to it.
#[derive(Clone, Copy, Debug, PartialEq, Eq, Structural)]
pub struct RunningStack {
    pub base: usize,
}

/// The stack slot a core owns: either empty (before bring-up seeds it, or
/// just after the active stack was picked out) or holding the installed
/// stack.
pub struct StackPool {
    current: Option<RunningStack>,
}

impl View for StackPool {
    type V = Option<RunningStack>;

    closed spec fn view(&self) -> Option<RunningStack> {
        self.current
    }
}

impl StackPool {
    /// An empty pool, holding no stack yet.
    pub fn new() -> (r: StackPool)
        ensures
            r@ is None,
    {
        StackPool { current: None }
    }

    /// Seeds the pool with the core's boot stack, given by its address.
    pub fn init(&mut self, curr_boot_stack: usize)
        ensures
            final(self)@ == Some(RunningStack { base: curr_boot_stack }),
    {
        self.current = Some(RunningStack { base: curr_boot_stack });
    }

    /// Removes and returns ownership of the presently installed stack,
    /// leaving the slot empty until the next install.
    pub fn pick_current_stack(&mut self) -> (r: RunningStack)
        requires
            old(self)@ is Some,
        ensures
            r == old(self)@.unwrap(),
            final(self)@ is None,
    {
        let r = self.current.unwrap();
        self.current = None;
        r
    }

    /// Borrows the presently installed stack.
    pub fn current_stack(&self) -> (r: &RunningStack)
        requires
            self@ is Some,
        ensures
            *r == self@.unwrap(),
    {
        self.current.as_ref().unwrap()
    }

    /// Installs `stack` as the active one.
    pub fn set_current_stack(&mut self, stack: RunningStack)
        ensures
            final(self)@ == Some(stack),
    {
        self.current = Some(stack);
    }
}

} // verus!
