//! The wake-handle bridge: an opaque handle bound to one task slot, and the
//! way back from a handle to the slot it names.

use vstd::prelude::*;

verus! {

/// An opaque wake handle addressed to one task slot of an executor.
///
/// A handle is plain data: it may be copied, stored by a suspended
/// computation, or carried into an interrupt-style context, and releasing
/// one is a no-op.  Waking through it is `raw::wake_task`.
#[derive(Copy, Clone, PartialEq, Eq, Structural, Debug)]
pub struct WakeHandle {
    task: usize,
}

impl WakeHandle {
    /// The index of the slot this handle wakes.
    pub closed spec fn id(self) -> int {
        self.task as int
    }
}

/// Builds the wake handle addressed to the task in slot `task`.
pub fn from_task(task: usize) -> (w: WakeHandle)
    ensures
        w.id() == task,
{
    WakeHandle { task }
}

/// The slot a wake handle is addressed to, for low-level bridges that
/// re-queue a task directly.
pub fn task_from_waker(w: &WakeHandle) -> (t: usize)
    ensures
        t == w.id(),
{
    w.task
}

} // verus!
