//! The executor core, driven end to end: spawning, waking, polling, slot
//! reuse, and the signal capability.

use std::cell::RefCell;
use std::rc::Rc;

use rtt_rs::executor::SignalCounter;
use rtt_rs::executor::device_wake;
use rtt_rs::executor::raw::Computation;
use rtt_rs::executor::raw::Executor;
use rtt_rs::executor::raw::Notifier;
use rtt_rs::executor::raw::PollOutcome;
use rtt_rs::executor::raw::TaskStorage;
use rtt_rs::executor::raw::wake_task;
use rtt_rs::executor::spawner::SpawnError;
use rtt_rs::executor::spawner::Spawner;
use rtt_rs::executor::waker::WakeHandle;
use rtt_rs::executor::waker::from_task;
use rtt_rs::executor::waker::task_from_waker;

/// A test computation: counts its resumptions, optionally wakes itself on
/// its first step, resolves after a fixed number of steps, and can log its
/// label into a shared trace.
struct TestTask {
    label: u32,
    polls: u32,
    wake_on_first: bool,
    finish_at: u32,
    stored: Rc<RefCell<Vec<WakeHandle>>>,
    trace: Rc<RefCell<Vec<u32>>>,
}

impl TestTask {
    fn plain(label: u32) -> TestTask {
        TestTask {
            label,
            polls: 0,
            wake_on_first: false,
            finish_at: u32::MAX,
            stored: Rc::new(RefCell::new(Vec::new())),
            trace: Rc::new(RefCell::new(Vec::new())),
        }
    }
}

impl Computation for TestTask {
    fn poll(&mut self, waker: WakeHandle) -> PollOutcome {
        self.polls += 1;
        self.trace.borrow_mut().push(self.label);
        self.stored.borrow_mut().push(waker);
        PollOutcome {
            ready: self.polls >= self.finish_at,
            woke: self.wake_on_first && self.polls == 1,
        }
    }
}

fn pool(n: usize) -> Vec<TaskStorage<TestTask>> {
    let mut v = Vec::new();
    for _ in 0..n {
        v.push(TaskStorage::new());
    }
    v
}

fn polls_of(exec: &Executor<TestTask, SignalCounter>, idx: usize) -> u32 {
    exec.computation(idx).map(|t| t.polls).unwrap_or(0)
}

#[test]
fn two_slot_pool_scenario() {
    // A fixed pool of two slots: A spawns, B spawns, C is Busy and harms
    // nothing; one poll resumes A and B once each; A woke itself during
    // its own step, so the next poll resumes A again and B only if woken.
    let mut exec = Executor::new(pool(2), SignalCounter::new());
    let spawner = exec.spawner();

    let mut a = TestTask::plain(1);
    a.wake_on_first = true;
    let token_a = TaskStorage::spawn_pool(&mut exec, a);
    assert_eq!(spawner.spawn(&mut exec, token_a), Ok(()));

    let token_b = TaskStorage::spawn_pool(&mut exec, TestTask::plain(2));
    assert_eq!(spawner.spawn(&mut exec, token_b), Ok(()));

    let token_c = TaskStorage::spawn_pool(&mut exec, TestTask::plain(3));
    assert_eq!(spawner.spawn(&mut exec, token_c), Err(SpawnError::Busy));
    assert!(exec.is_spawned(0));
    assert!(exec.is_spawned(1));
    assert_eq!(exec.run_queue_len(), 2);

    exec.poll();
    assert_eq!(polls_of(&exec, 0), 1);
    assert_eq!(polls_of(&exec, 1), 1);
    assert_eq!(exec.run_queue_len(), 1);

    exec.poll();
    assert_eq!(polls_of(&exec, 0), 2);
    assert_eq!(polls_of(&exec, 1), 1);
}

#[test]
fn wake_is_idempotent_between_polls() {
    // However many wakes arrive between two polls, the task holds one
    // run-queue entry and is resumed once by the next pass.
    let mut exec = Executor::new(pool(1), SignalCounter::new());
    let spawner = exec.spawner();
    let token = TaskStorage::spawn(&mut exec, 0, TestTask::plain(7));
    spawner.must_spawn(&mut exec, token);
    exec.poll();
    assert_eq!(polls_of(&exec, 0), 1);
    assert_eq!(exec.run_queue_len(), 0);

    for _ in 0..5 {
        wake_task(&mut exec, from_task(0));
    }
    assert_eq!(exec.run_queue_len(), 1);
    assert!(exec.is_run_queued(0));

    exec.poll();
    assert_eq!(polls_of(&exec, 0), 2);
    assert_eq!(exec.run_queue_len(), 0);
}

#[test]
fn busy_spawn_leaves_running_task_untouched() {
    // A claim on an occupied slot reports Busy and changes neither the
    // task's state nor its queue entry nor its stored computation.
    let mut exec = Executor::new(pool(1), SignalCounter::new());
    let spawner = exec.spawner();
    let token = TaskStorage::spawn(&mut exec, 0, TestTask::plain(4));
    spawner.must_spawn(&mut exec, token);
    exec.poll();
    wake_task(&mut exec, from_task(0));
    let queue_before = exec.run_queue_len();
    let polls_before = polls_of(&exec, 0);
    let label_before = exec.computation(0).map(|t| t.label);

    let again = TaskStorage::spawn(&mut exec, 0, TestTask::plain(9));
    assert_eq!(spawner.spawn(&mut exec, again), Err(SpawnError::Busy));
    assert!(exec.is_spawned(0));
    assert_eq!(exec.run_queue_len(), queue_before);
    assert_eq!(polls_of(&exec, 0), polls_before);
    assert_eq!(exec.computation(0).map(|t| t.label), label_before);
}

#[test]
fn resolved_slot_is_reusable() {
    // Once a computation resolves, its slot is empty and a fresh claim
    // with an independent computation succeeds, with nothing carried over.
    let mut exec = Executor::new(pool(1), SignalCounter::new());
    let spawner = exec.spawner();
    let mut one_shot = TestTask::plain(1);
    one_shot.finish_at = 1;
    let token = TaskStorage::spawn(&mut exec, 0, one_shot);
    spawner.must_spawn(&mut exec, token);
    exec.poll();
    assert!(!exec.is_spawned(0));
    assert!(!exec.is_run_queued(0));
    assert!(exec.computation(0).is_none());
    assert_eq!(exec.run_queue_len(), 0);

    let token = TaskStorage::spawn(&mut exec, 0, TestTask::plain(2));
    spawner.must_spawn(&mut exec, token);
    assert_eq!(polls_of(&exec, 0), 0);
    exec.poll();
    assert_eq!(polls_of(&exec, 0), 1);
    assert_eq!(exec.computation(0).map(|t| t.label), Some(2));
}

#[test]
fn many_wakes_queue_task_exactly_once() {
    // Wakes from any number of independent contexts between two passes
    // queue the task exactly once for the next pass.
    let mut exec = Executor::new(pool(2), SignalCounter::new());
    let spawner = exec.spawner();
    let ta = TaskStorage::spawn(&mut exec, 0, TestTask::plain(1));
    spawner.must_spawn(&mut exec, ta);
    let tb = TaskStorage::spawn(&mut exec, 1, TestTask::plain(2));
    spawner.must_spawn(&mut exec, tb);
    exec.poll();
    assert_eq!(exec.run_queue_len(), 0);

    // Several stored handles to the same task, each woken repeatedly.
    let handles: Vec<WakeHandle> = exec.computation(0).unwrap().stored.borrow().clone();
    assert!(!handles.is_empty());
    for _ in 0..4 {
        for h in &handles {
            wake_task(&mut exec, *h);
        }
    }
    assert_eq!(exec.run_queue_len(), 1);
    exec.poll();
    assert_eq!(polls_of(&exec, 0), 2);
    assert_eq!(polls_of(&exec, 1), 1);
}

#[test]
fn drain_order_is_last_woken_first() {
    // The intrusive stack drains in reverse arrival order.
    let trace = Rc::new(RefCell::new(Vec::new()));
    let mut exec = Executor::new(pool(2), SignalCounter::new());
    let spawner = exec.spawner();
    let mut a = TestTask::plain(1);
    a.trace = Rc::clone(&trace);
    let mut b = TestTask::plain(2);
    b.trace = Rc::clone(&trace);
    let ta = TaskStorage::spawn(&mut exec, 0, a);
    spawner.must_spawn(&mut exec, ta);
    let tb = TaskStorage::spawn(&mut exec, 1, b);
    spawner.must_spawn(&mut exec, tb);
    exec.poll();
    assert_eq!(*trace.borrow(), vec![2, 1]);
}

#[test]
fn signal_fires_exactly_on_empty_to_nonempty() {
    // The notifier is invoked exactly when the queue turns from empty to
    // non-empty: once for the first registration, not for the second, and
    // once more for a wake after the queue drained.
    let mut exec = Executor::new(pool(2), SignalCounter::new());
    let spawner = exec.spawner();
    assert_eq!(exec.notifier().count, 0);
    let ta = TaskStorage::spawn(&mut exec, 0, TestTask::plain(1));
    spawner.must_spawn(&mut exec, ta);
    assert_eq!(exec.notifier().count, 1);
    let tb = TaskStorage::spawn(&mut exec, 1, TestTask::plain(2));
    spawner.must_spawn(&mut exec, tb);
    assert_eq!(exec.notifier().count, 1);
    exec.poll();
    for _ in 0..3 {
        wake_task(&mut exec, from_task(0));
    }
    assert_eq!(exec.notifier().count, 2);
    wake_task(&mut exec, from_task(1));
    assert_eq!(exec.notifier().count, 2);
}

#[test]
fn self_wake_then_resolve_leaves_stale_entry_then_frees() {
    // A task that wakes itself and then resolves in the same step leaves a
    // stale queue entry: the slot stays busy until the next pass drains
    // the entry without resuming anything, and only then can be claimed.
    let mut exec = Executor::new(pool(1), SignalCounter::new());
    let spawner = exec.spawner();
    let mut t = TestTask::plain(1);
    t.wake_on_first = true;
    t.finish_at = 1;
    let token = TaskStorage::spawn(&mut exec, 0, t);
    spawner.must_spawn(&mut exec, token);
    exec.poll();
    assert!(!exec.is_spawned(0));
    assert!(exec.is_run_queued(0));
    assert_eq!(exec.run_queue_len(), 1);

    let blocked = TaskStorage::spawn(&mut exec, 0, TestTask::plain(2));
    assert_eq!(spawner.spawn(&mut exec, blocked), Err(SpawnError::Busy));

    exec.poll();
    assert_eq!(exec.run_queue_len(), 0);
    assert!(!exec.is_run_queued(0));
    let token = TaskStorage::spawn(&mut exec, 0, TestTask::plain(3));
    spawner.must_spawn(&mut exec, token);
    exec.poll();
    assert_eq!(exec.computation(0).map(|t| t.polls), Some(1));
}

#[test]
fn wake_of_unspawned_slot_is_a_no_op() {
    let mut exec = Executor::new(pool(2), SignalCounter::new());
    wake_task(&mut exec, from_task(1));
    assert_eq!(exec.run_queue_len(), 0);
    assert_eq!(exec.notifier().count, 0);
    assert!(!exec.is_run_queued(1));
}

#[test]
fn wake_handle_round_trip() {
    let w = from_task(3);
    assert_eq!(task_from_waker(&w), 3);
    let copy = w;
    assert_eq!(task_from_waker(&copy), 3);
}

#[test]
fn device_wake_requeues_through_stored_handle() {
    // A handle stored by the computation is enough for a device-side
    // bridge to re-queue the task, without going through its future.
    let mut exec = Executor::new(pool(1), SignalCounter::new());
    let spawner = exec.spawner();
    let token = TaskStorage::spawn(&mut exec, 0, TestTask::plain(1));
    spawner.must_spawn(&mut exec, token);
    exec.poll();
    let stored = exec.computation(0).unwrap().stored.borrow().clone();
    device_wake(&mut exec, stored[0]);
    device_wake(&mut exec, stored[0]);
    assert_eq!(exec.run_queue_len(), 1);
    exec.poll();
    assert_eq!(polls_of(&exec, 0), 2);
}

#[test]
fn spawn_pool_takes_first_free_slot() {
    let mut exec = Executor::new(pool(3), SignalCounter::new());
    let spawner = exec.spawner();
    let t0 = TaskStorage::spawn(&mut exec, 0, TestTask::plain(1));
    spawner.must_spawn(&mut exec, t0);
    let t = TaskStorage::spawn_pool(&mut exec, TestTask::plain(2));
    spawner.must_spawn(&mut exec, t);
    assert!(exec.is_spawned(1));
    assert!(!exec.is_spawned(2));
    assert_eq!(exec.computation(1).map(|t| t.label), Some(2));
}

#[test]
fn counter_notifier_counts() {
    let mut c = SignalCounter::new();
    assert_eq!(c.count, 0);
    c.notify();
    c.notify();
    assert_eq!(c.count, 2);
}

#[test]
fn task_count_matches_pool() {
    let exec: Executor<TestTask, SignalCounter> = Executor::new(pool(4), SignalCounter::new());
    assert_eq!(exec.task_count(), 4);
}
