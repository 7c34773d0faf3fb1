//! The spawn-token protocol: a single-use capability carrying a freshly
//! claimed task, consumed exactly once by registration.

use vstd::prelude::*;

use crate::executor::model::ExecutorModel;
use crate::executor::model::register_model;
use crate::executor::raw::Computation;
use crate::executor::raw::Executor;
use crate::executor::raw::Notifier;

verus! {

/// Error returned when spawning a task: the slot is occupied by a task that
/// has not finished running.
#[derive(Copy, Clone, Debug, PartialEq, Eq, Structural)]
pub enum SpawnError {
    Busy,
}

/// Token carrying a newly claimed task, ready to be registered with an
/// executor — or the failure mark of a claim that found the slot busy.
///
/// A token must be consumed exactly once, by `Spawner::spawn` or
/// `Spawner::must_spawn`: there is no path that releases a claimed but
/// never-registered slot.
#[must_use]
pub struct SpawnToken<F> {
    raw_task: Option<usize>,
    phantom: core::marker::PhantomData<F>,
}

impl<F> SpawnToken<F> {
    /// The slot the token claims, or nothing for a failed claim.
    pub closed spec fn id(self) -> Option<int> {
        match self.raw_task {
            Some(i) => Some(i as int),
            None => None,
        }
    }

    pub(crate) fn new(raw_task: usize) -> (t: SpawnToken<F>)
        ensures
            t.id() == Some(raw_task as int),
    {
        SpawnToken { raw_task: Some(raw_task), phantom: core::marker::PhantomData }
    }

    pub(crate) fn new_failed() -> (t: SpawnToken<F>)
        ensures
            t.id() is None,
    {
        SpawnToken { raw_task: None, phantom: core::marker::PhantomData }
    }
}

/// Handle that registers claimed tasks with an executor.  It may be copied
/// freely; registration itself consumes only the token.
#[derive(Copy, Clone)]
pub struct Spawner {
    reserved: (),
}

impl Spawner {
    pub(crate) fn new() -> Spawner {
        Spawner { reserved: () }
    }

    /// Consumes a spawn token.  A token carrying a claimed task registers
    /// it: the task takes its place at the queue's head, scheduling its
    /// first poll at once, and the signal fires if the queue was empty.  A
    /// failure token reports `Busy` and changes nothing.
    pub fn spawn<F: Computation, N: Notifier>(
        &self,
        exec: &mut Executor<F, N>,
        token: SpawnToken<F>,
    ) -> (r: Result<(), SpawnError>)
        requires
            old(exec).wf(),
            token_valid(old(exec)@, token.id()),
        ensures
            final(exec).wf(),
            match token.id() {
                Some(i) => {
                    &&& r == Ok::<(), SpawnError>(())
                    &&& final(exec)@ == register_model(old(exec)@, i)
                },
                None => {
                    &&& r == Err::<(), SpawnError>(SpawnError::Busy)
                    &&& final(exec)@ == old(exec)@
                },
            },
    {
        match token.raw_task {
            Some(idx) => {
                exec.register(idx);
                Ok(())
            },
            None => Err(SpawnError::Busy),
        }
    }

    /// Registers a token that is known to carry a claimed task; spawning
    /// cannot report `Busy` here, so there is no result to inspect.
    pub fn must_spawn<F: Computation, N: Notifier>(
        &self,
        exec: &mut Executor<F, N>,
        token: SpawnToken<F>,
    )
        requires
            old(exec).wf(),
            token_valid(old(exec)@, token.id()),
            token.id() is Some,
        ensures
            final(exec).wf(),
            final(exec)@ == register_model(old(exec)@, token.id()->Some_0),
    {
        match self.spawn(exec, token) {
            Ok(()) => (),
            Err(_) => vstd::pervasive::unreached(),
        }
    }
}

/// A successful token is only ever made by a claim, and stays valid while
/// its task is claimed but not yet registered: the slot is spawned, carries
/// the mark the claim set, and stands in no queue.
pub open spec fn token_valid<F>(m: ExecutorModel<F>, id: Option<int>) -> bool {
    match id {
        Some(i) => {
            &&& m.in_range(i)
            &&& m.tasks[i].spawned
            &&& m.tasks[i].queued
            &&& m.tasks[i].fut is Some
            &&& !m.queue.contains(i)
        },
        None => true,
    }
}

} // verus!
