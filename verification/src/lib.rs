//! Support library for running Rust on a small real-time operating system.
//!
//! The heart of the crate is `executor`: a cooperative async task executor
//! built from a per-task state machine, an intrusive run queue held in a
//! fixed arena of task slots, a wake-handle bridge, and a single-use spawn
//! token protocol.  Every transition of that core is specified and verified.
//!
//! Around the core stand the kernel-object and device wrappers (`mutex`,
//! `semaphore`, `queue`, `thread`, `fs`, `device`).  The host kernel does
//! their actual work through its C interface; this crate holds the decision
//! side of each call — building names, flags and configuration words, and
//! interpreting the codes the kernel hands back — with exact contracts.

pub mod base;
pub mod device;
pub mod executor;
pub mod fs;
pub mod mutex;
pub mod queue;
pub mod semaphore;
pub mod thread;

use vstd::prelude::*;

verus! {

/// The run-queue link value that marks "no task": no slot index ever
/// equals it, because an arena never holds `usize::MAX` slots.
pub const NIL_INDEX: usize = usize::MAX;

} // verus!
