//! Task handles.
//!
//! A `TaskId` is an opaque, totally ordered handle for a schedulable unit of
//! work. The kernel produces and owns the values; this module only stores and
//! transports them. The reserved raw value `0` is the `NULL` sentinel, which
//! means "no task".

use vstd::prelude::*;

verus! {

/// Opaque handle identifying a schedulable unit of work.
#[derive(Clone, Copy, Debug, PartialEq, Eq, PartialOrd, Ord, Hash, Structural)]
pub struct TaskId {
    pub raw: u64,
}

/// The reserved sentinel handle meaning "no task".
pub open spec fn null_id() -> TaskId {
    TaskId { raw: 0 }
}

impl TaskId {
    /// True of the sentinel handle alone.
    pub open spec fn spec_is_null(&self) -> bool {
        self.raw == 0
    }

    /// Wraps a raw handle value produced by the kernel.
    pub fn new(raw: u64) -> (r: TaskId)
        ensures
            r == (TaskId { raw }),
    {
        TaskId { raw }
    }

    /// The sentinel handle meaning "no task".
    pub fn null() -> (r: TaskId)
        ensures
            r == null_id(),
    {
        TaskId { raw: 0 }
    }

    /// The raw handle value.
    pub fn raw(&self) -> (r: u64)
        ensures
            r == self.raw,
    {
        self.raw
    }

    /// Whether this handle is the "no task" sentinel.
    pub fn is_null(&self) -> (r: bool)
        ensures
            r == self.spec_is_null(),
    {
        self.raw == 0
    }
}

} // verus!
