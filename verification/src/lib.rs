//! Per-core scheduling support for an SMP kernel.
//!
//! Each core owns one state record: a FIFO ready queue of task handles, the
//! currently running task, a stack-pool slot, an opaque scheduler handle, and
//! the next timer deadline. The records live in one contiguous per-core area,
//! indexed by core id; a resolver recovers a core's slot from the address a
//! bring-up step bound into a hardware register.
//!
//! Each record's mutable state is owned by the core the record belongs to:
//! apart from bring-up and the one cross-core placement decision, no core
//! ever touches another core's slot. The contracts here express that
//! exclusive ownership directly with `&mut`, and every operation is a
//! bounded, non-blocking read or write: nothing suspends, retries or
//! returns a recoverable error.

pub mod id;
pub mod ready_queue;
pub mod stack_pool;
pub mod processor;
pub mod percpu;
pub mod api;
