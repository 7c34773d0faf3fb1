//! Cooperative async task executor.
//!
//! `raw` holds the core: a fixed arena of task slots, each with a two-flag
//! state word, an intrusive run queue of slot indices, and a one-pass poll
//! loop.  `spawner` holds the single-use token protocol that registers a
//! claimed task, and `waker` the opaque wake handles that re-queue a task
//! from outside.  `model` is the ghost image of the core that every
//! contract speaks of, together with the proofs of its laws.

pub mod model;
pub mod raw;
pub mod spawner;
pub mod waker;

use vstd::prelude::*;

use crate::executor::model::wake_fires;
use crate::executor::model::wake_model;
use crate::executor::raw::Computation;
use crate::executor::raw::Executor;
use crate::executor::raw::Notifier;
use crate::executor::raw::wake_task;
use crate::executor::waker::WakeHandle;

verus! {

/// A signal capability that only counts how often it fired.  It stands in
/// for a host-specific callback — resuming the executor's thread, say —
/// wherever the embedding only needs to see that work was announced.
pub struct SignalCounter {
    pub count: u64,
}

impl SignalCounter {
    /// A counter that has not fired yet.
    pub fn new() -> (s: SignalCounter)
        ensures
            s.count == 0,
    {
        SignalCounter { count: 0 }
    }
}

impl Notifier for SignalCounter {
    fn notify(&mut self) {
        self.count = self.count.saturating_add(1);
    }
}

/// Wakes a task from a device bridge — an interrupt handler, say — through
/// the wake handle its computation stored away: the same idempotent wake
/// transition as any other wake.
pub fn device_wake<F: Computation, N: Notifier>(exec: &mut Executor<F, N>, c: WakeHandle)
    requires
        old(exec).wf(),
        0 <= c.id() < old(exec)@.tasks.len(),
    ensures
        final(exec).wf(),
        final(exec)@ == wake_model(old(exec)@, c.id()),
        final(exec).signal_count() == old(exec).signal_count() + (if wake_fires(
            old(exec)@,
            c.id(),
        ) {
            1nat
        } else {
            0nat
        }),
{
    wake_task(exec, c);
}

} // verus!
