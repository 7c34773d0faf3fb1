//! The raw executor core: per-task state words, the task arena, the
//! intrusive run queue of slot indices, and the one-pass poll loop.
//!
//! Tasks live in a fixed arena owned by the executor; a task is named by
//! its slot index and the run queue is a singly linked stack threaded
//! through the slots' link words, with `NIL_INDEX` as the end mark.
//! Every operation is proved to implement its transition of
//! [`crate::executor::model`].

use vstd::prelude::*;

use crate::NIL_INDEX;
use crate::executor::model::ExecutorModel;
use crate::executor::model::StepChoice;
use crate::executor::model::TaskModel;
use crate::executor::model::choices_wf;
use crate::executor::model::claim_model;
use crate::executor::model::lemma_pass_model_snoc;
use crate::executor::model::pass_model;
use crate::executor::model::poll_model;
use crate::executor::model::poll_fires;
use crate::executor::model::register_model;
use crate::executor::model::visit_fires;
use crate::executor::model::visit_model;
use crate::executor::model::wake_fires;
use crate::executor::model::wake_model;
use crate::executor::spawner::SpawnToken;
use crate::executor::spawner::Spawner;
use crate::executor::spawner::token_valid;
use crate::executor::waker::WakeHandle;
use crate::executor::waker::from_task;

verus! {

/// State-word flag: the slot holds a live computation.
pub const STATE_SPAWNED: u32 = 1;

/// State-word flag: the task carries the run-queue mark.
pub const STATE_RUN_QUEUED: u32 = 2;

/// Whether a state word carries the spawned flag.
pub open spec fn spawned_of(s: u32) -> bool {
    s & STATE_SPAWNED != 0
}

/// Whether a state word carries the run-queue mark.
pub open spec fn queued_of(s: u32) -> bool {
    s & STATE_RUN_QUEUED != 0
}

/// Per-task header: the single-word state machine — two flag bits in one
/// word — and the intrusive run-queue link.
pub struct TaskHeader {
    state: u32,
    next: usize,
}

impl TaskHeader {
    /// A header in the idle state, linked to nothing.
    pub fn new() -> (h: TaskHeader)
        ensures
            !spawned_of(h.state_word()),
            !queued_of(h.state_word()),
    {
        proof {
            lemma_state_bits();
        }
        TaskHeader { state: 0, next: NIL_INDEX }
    }

    /// The header's state word.
    pub closed spec fn state_word(self) -> u32 {
        self.state
    }
}

/// What one resumption step reports back: whether the computation resolved,
/// and whether it invoked its own wake handle during the step.
#[derive(Copy, Clone, PartialEq, Eq, Structural, Debug)]
pub struct PollOutcome {
    pub ready: bool,
    pub woke: bool,
}

/// A suspended computation that the executor can resume one step at a time.
///
/// `poll` is handed the wake handle addressed to the computation's own
/// slot; it may copy the handle away for a later wake from outside.  The
/// outcome says whether the computation resolved and whether it already
/// invoked that handle during this very step.
pub trait Computation: Sized {
    fn poll(&mut self, waker: WakeHandle) -> PollOutcome;
}

/// The signal capability handed to an executor at construction: `notify` is
/// invoked exactly when the run queue turns from empty to non-empty, to say
/// that work is ready.
pub trait Notifier: Sized {
    fn notify(&mut self);
}

/// A slot in which one task can be spawned: its header and the storage for
/// its computation.  Slots are made once, live as long as their arena, and
/// are only ever recycled logically.
pub struct TaskStorage<F> {
    raw: TaskHeader,
    future: Option<F>,
}

impl<F> TaskStorage<F> {
    /// A fresh slot in the idle, not-spawned state.
    pub fn new() -> (t: TaskStorage<F>)
        ensures
            t@.idle(),
            t@.fut is None,
    {
        TaskStorage { raw: TaskHeader::new(), future: None }
    }
}

impl<F: Computation> TaskStorage<F> {
    /// Tries to spawn `future` into slot `idx` of `exec`'s arena: the claim
    /// transition.  On an idle slot the claim takes both flags and stores
    /// the computation — the queue itself is untouched until the token is
    /// registered — and the returned token carries the slot.  On any other
    /// slot nothing changes at all and the failure token comes back, which
    /// `Spawner::spawn` turns into `Busy`.
    pub fn spawn<N: Notifier>(exec: &mut Executor<F, N>, idx: usize, future: F) -> (token:
        SpawnToken<F>)
        requires
            old(exec).wf(),
            0 <= idx < old(exec)@.tasks.len(),
        ensures
            final(exec).wf(),
            old(exec)@.tasks[idx as int].idle() ==> {
                &&& final(exec)@ == claim_model(old(exec)@, idx as int, future)
                &&& token.id() == Some(idx as int)
            },
            !old(exec)@.tasks[idx as int].idle() ==> {
                &&& final(exec)@ == old(exec)@
                &&& token.id() is None
            },
            token_valid(final(exec)@, token.id()),
            final(exec).signal_count() == old(exec).signal_count(),
    {
        proof {
            lemma_state_bits();
        }
        let s = exec.tasks[idx].raw.state;
        if s & STATE_SPAWNED == 0 && s & STATE_RUN_QUEUED == 0 {
            exec.tasks[idx].raw.state = STATE_SPAWNED | STATE_RUN_QUEUED;
            exec.tasks[idx].future = Some(future);
            proof {
                assert(exec@.tasks =~= claim_model(old(exec)@, idx as int, future).tasks);
                assert(exec@ =~= claim_model(old(exec)@, idx as int, future));
                assert(!old(exec)@.queue.contains(idx as int));
            }
            SpawnToken::new(idx)
        } else {
            SpawnToken::new_failed()
        }
    }

    /// Scans a whole arena for the first slot whose claim succeeds and
    /// spawns `future` there; when every slot is occupied, nothing changes
    /// and the failure token comes back.
    pub fn spawn_pool<N: Notifier>(exec: &mut Executor<F, N>, future: F) -> (token: SpawnToken<
        F,
    >)
        requires
            old(exec).wf(),
        ensures
            final(exec).wf(),
            match token.id() {
                Some(i) => {
                    &&& old(exec)@.in_range(i)
                    &&& old(exec)@.tasks[i].idle()
                    &&& forall|j: int| 0 <= j < i ==> !(#[trigger] old(exec)@.tasks[j]).idle()
                    &&& final(exec)@ == claim_model(old(exec)@, i, future)
                },
                None => {
                    &&& forall|j: int|
                        0 <= j < old(exec)@.tasks.len() ==> !(#[trigger] old(exec)@.tasks[j]).idle()
                    &&& final(exec)@ == old(exec)@
                },
            },
            token_valid(final(exec)@, token.id()),
            final(exec).signal_count() == old(exec).signal_count(),
    {
        proof {
            lemma_state_bits();
        }
        let n = exec.tasks.len();
        let mut i: usize = 0;
        while i < n
            invariant
                0 <= i <= n,
                n == old(exec)@.tasks.len(),
                exec.wf(),
                exec@ == old(exec)@,
                exec.signal_count() == old(exec).signal_count(),
                forall|j: int| 0 <= j < i ==> !(#[trigger] old(exec)@.tasks[j]).idle(),
            decreases n - i,
        {
            let s = exec.tasks[i].raw.state;
            if s & STATE_SPAWNED == 0 && s & STATE_RUN_QUEUED == 0 {
                return Self::spawn(exec, i, future);
            }
            i += 1;
        }
        SpawnToken::new_failed()
    }
}

impl<F> View for TaskStorage<F> {
    type V = TaskModel<F>;

    closed spec fn view(&self) -> TaskModel<F> {
        TaskModel {
            spawned: spawned_of(self.raw.state),
            queued: queued_of(self.raw.state),
            fut: self.future,
        }
    }
}

/// The raw executor: the task arena, the head of the intrusive run queue,
/// and the injected signal capability.
pub struct Executor<F, N> {
    tasks: Vec<TaskStorage<F>>,
    rq_head: usize,
    notifier: N,
    queue: Ghost<Seq<int>>,
    signals: Ghost<nat>,
}

impl<F, N> View for Executor<F, N> {
    type V = ExecutorModel<F>;

    closed spec fn view(&self) -> ExecutorModel<F> {
        ExecutorModel {
            tasks: self.tasks@.map_values(|t: TaskStorage<F>| t@),
            queue: self.queue@,
        }
    }
}

impl<F, N> Executor<F, N> {
    /// How often the signal capability has been invoked: it fires exactly
    /// when the queue turns from empty to non-empty.
    pub closed spec fn signal_count(&self) -> nat {
        self.signals@
    }

    /// The run-queue link word of slot `j`.
    spec fn link_of(&self, j: int) -> usize {
        self.tasks@[j].raw.next
    }

    /// Well-formedness: the model invariant holds, the arena is small enough
    /// that `NIL_INDEX` names no slot, and the link words thread exactly the
    /// queue of the model, head first.
    pub closed spec fn wf(&self) -> bool {
        &&& self@.inv()
        &&& self.tasks@.len() < NIL_INDEX
        &&& if self.queue@.len() == 0 {
            self.rq_head == NIL_INDEX
        } else {
            self.rq_head == self.queue@[0]
        }
        &&& forall|k: int|
            0 <= k < self.queue@.len() - 1 ==> self.link_of(#[trigger] self.queue@[k])
                == self.queue@[k + 1]
        &&& self.queue@.len() > 0 ==> self.link_of(self.queue@.last()) == NIL_INDEX
    }
}

impl<F: Computation, N: Notifier> Executor<F, N> {
    /// Builds an executor over a fresh arena of idle slots, with the signal
    /// capability it will invoke whenever the queue turns non-empty.
    pub fn new(tasks: Vec<TaskStorage<F>>, notifier: N) -> (e: Executor<F, N>)
        requires
            tasks@.len() < NIL_INDEX,
            forall|i: int| 0 <= i < tasks@.len() ==> (#[trigger] tasks@[i]@).idle(),
        ensures
            e.wf(),
            e@.tasks == tasks@.map_values(|t: TaskStorage<F>| t@),
            e@.queue == Seq::<int>::empty(),
            e.signal_count() == 0,
    {
        let e = Executor {
            tasks,
            rq_head: NIL_INDEX,
            notifier,
            queue: Ghost(Seq::empty()),
            signals: Ghost(0),
        };
        proof {
            assert forall|i: int| e@.in_range(i) && #[trigger] e@.tasks[i].spawned implies e@.tasks[i].fut
                is Some by {
                assert(e@.tasks[i] == e.tasks@[i]@);
            }
        }
        e
    }

    /// How many slots the arena holds.
    pub fn task_count(&self) -> (n: usize)
        ensures
            n == self@.tasks.len(),
    {
        self.tasks.len()
    }

    /// Read access to the injected signal capability.
    pub fn notifier(&self) -> &N {
        &self.notifier
    }

    /// A spawner that registers claimed tasks with this executor.
    pub fn spawner(&self) -> (s: Spawner) {
        Spawner::new()
    }

    /// Whether slot `idx` currently holds a live computation.
    pub fn is_spawned(&self, idx: usize) -> (r: bool)
        requires
            0 <= idx < self@.tasks.len(),
        ensures
            r == self@.tasks[idx as int].spawned,
    {
        self.tasks[idx].raw.state & STATE_SPAWNED != 0
    }

    /// Whether slot `idx` currently carries the run-queue mark.
    pub fn is_run_queued(&self, idx: usize) -> (r: bool)
        requires
            0 <= idx < self@.tasks.len(),
        ensures
            r == self@.tasks[idx as int].queued,
    {
        self.tasks[idx].raw.state & STATE_RUN_QUEUED != 0
    }

    /// Read access to the computation stored in slot `idx`, if any.
    pub fn computation(&self, idx: usize) -> (r: Option<&F>)
        requires
            0 <= idx < self@.tasks.len(),
        ensures
            match r {
                Some(f) => self@.tasks[idx as int].fut == Some(*f),
                None => self@.tasks[idx as int].fut is None,
            },
    {
        match &self.tasks[idx].future {
            Some(f) => Some(f),
            None => None,
        }
    }

    /// How many tasks stand in the run queue, by walking its links.
    pub fn run_queue_len(&self) -> (n: usize)
        requires
            self.wf(),
        ensures
            n == self@.queue.len(),
    {
        let ghost q = self.queue@;
        proof {
            crate::executor::model::lemma_queue_len_bounded(self@);
        }
        let mut n: usize = 0;
        let mut cur = self.rq_head;
        while cur != NIL_INDEX
            invariant
                self.wf(),
                q == self.queue@,
                q.len() <= self@.tasks.len(),
                0 <= n <= q.len(),
                cur == (if n == q.len() {
                    NIL_INDEX
                } else {
                    q[n as int] as usize
                }),
            decreases q.len() - n,
        {
            proof {
                assert(self@.in_range(q[n as int]));
            }
            cur = self.tasks[cur].raw.next;
            n += 1;
        }
        n
    }

    /// One visit of the poll pass to the task in slot `idx`, which the
    /// caller has already detached from the queue: clears its run-queue
    /// mark, resumes its computation one step if it is still spawned, turns
    /// a self-wake during the step into the wake transition, and destroys a
    /// resolved computation in place.
    fn poll_visit(&mut self, idx: usize) -> (c: Ghost<StepChoice<F>>)
        requires
            old(self).wf(),
            0 <= idx < old(self)@.tasks.len(),
            !old(self)@.queue.contains(idx as int),
        ensures
            final(self).wf(),
            final(self)@ == visit_model(old(self)@, idx as int, c@),
            final(self).signal_count() == old(self).signal_count() + visit_fires(
                old(self)@,
                idx as int,
                c@,
            ),
            old(self)@.tasks[idx as int].spawned && !c@.done ==> c@.fut is Some,
            !old(self)@.tasks[idx as int].spawned ==> !c@.woke && !c@.done,
            forall|j: int|
                0 <= j < old(self)@.tasks.len() && j != idx ==> final(self).link_of(j) == old(
                    self,
                ).link_of(j),
    {
        proof {
            lemma_state_bits();
        }
        let ghost m_before = self@;

        // Clear the run-queue mark before the task is resumed, so that a
        // wake during its own step queues it for a later pass.
        let spawned_now: bool;
        {
            let t = &mut self.tasks[idx];
            let s = t.raw.state;
            t.raw.state = s & !STATE_RUN_QUEUED;
            spawned_now = s & STATE_SPAWNED != 0;
        }
        let ghost ex_cleared = *self;
        proof {
            assert(self.tasks@[idx as int]@.fut == m_before.tasks[idx as int].fut);
            assert(spawned_now == m_before.tasks[idx as int].spawned);
        }

        if spawned_now {
            proof {
                assert(m_before.tasks[idx as int].fut is Some);
                assert(self.tasks@[idx as int].future is Some);
            }
            // Resume the stored computation exactly one step.
            let waker = from_task(idx);
            let outcome: PollOutcome;
            {
                let fr = &mut self.tasks[idx].future;
                match fr {
                    Some(f) => {
                        outcome = f.poll(waker);
                    },
                    None => {
                        outcome = vstd::pervasive::unreached();
                    },
                }
            }
            let ghost fut_after = self.tasks@[idx as int]@.fut;
            let ghost c = StepChoice { woke: outcome.woke, done: outcome.ready, fut: fut_after };
            let ghost ex_stepped = *self;
            let ghost m_stepped = self@;
            proof {
                assert(m_stepped.tasks =~= m_before.tasks.update(
                    idx as int,
                    TaskModel { spawned: true, queued: false, fut: fut_after },
                ));
            }

            if outcome.woke {
                self.enqueue_task(idx);
            }
            let ghost ex_woken = *self;
            let ghost m_woken = self@;

            if outcome.ready {
                // The computation resolved: destroy it in place and clear
                // the spawned flag, freeing the slot for a new claim once
                // any stale queue entry has drained.
                let t = &mut self.tasks[idx];
                t.future = None;
                let s2 = t.raw.state;
                t.raw.state = s2 & !STATE_SPAWNED;
            }

            proof {
                if !outcome.ready {
                    assert(fut_after is Some);
                }
                crate::executor::model::lemma_visit_model_parts(m_before, idx as int, c);
                let mv = visit_model(m_before, idx as int, c);
                assert forall|j: int|
                    0 <= j < m_before.tasks.len() && j != idx as int implies self@.tasks[j]
                    == m_before.tasks[j] by {
                    assert(m_stepped.tasks[j] == m_before.tasks[j]);
                    assert(m_woken.tasks[j] == m_stepped.tasks[j]);
                    assert(self@.tasks[j] == m_woken.tasks[j]);
                }
                assert forall|j: int|
                    0 <= j < m_before.tasks.len() && j != idx as int implies #[trigger] final(self).link_of(j) == old(
                    self,
                ).link_of(j) by {
                    assert(ex_cleared.link_of(j) == old(self).link_of(j));
                    assert(ex_stepped.link_of(j) == ex_cleared.link_of(j));
                    assert(ex_woken.link_of(j) == ex_stepped.link_of(j));
                    assert(self.link_of(j) == ex_woken.link_of(j));
                    assert(final(self).link_of(j) == self.link_of(j));
                }
                assert(self@.tasks[idx as int] == crate::executor::model::visited_task(
                    m_before.tasks[idx as int],
                    c,
                ));
                assert(self@.tasks =~= mv.tasks);
                assert(self@.queue == mv.queue);
                assert(self@ =~= mv);
            }
            Ghost(c)
        } else {
            let ghost c = StepChoice {
                woke: false,
                done: false,
                fut: self.tasks@[idx as int]@.fut,
            };
            proof {
                crate::executor::model::lemma_visit_model_parts(m_before, idx as int, c);
                let mv = visit_model(m_before, idx as int, c);
                assert(self@.tasks[idx as int] == crate::executor::model::visited_task(
                    m_before.tasks[idx as int],
                    c,
                ));
                assert(self@.tasks =~= mv.tasks);
                assert(self@ =~= mv);
                assert forall|j: int|
                    0 <= j < old(self)@.tasks.len() && j != idx implies #[trigger] final(self).link_of(j) == old(
                    self,
                ).link_of(j) by {
                    assert(self.link_of(j) == ex_cleared.link_of(j));
                    assert(ex_cleared.link_of(j) == old(self).link_of(j));
                    assert(final(self).link_of(j) == self.link_of(j));
                }
            }
            Ghost(c)
        }
    }

    /// One drain-and-resume pass over the run queue.
    ///
    /// The queue is detached in one step, then every detached task is
    /// visited once, in detachment order — last woken first, a structural
    /// consequence of the intrusive stack and no fairness promise.  A visit
    /// first clears the task's run-queue mark, so that a wake arriving
    /// during the task's own step re-queues it for a later pass instead of
    /// being lost or running it twice in this one; a task whose computation
    /// has already resolved is skipped; any other task is resumed exactly
    /// one step, and a resolved computation is destroyed in place and its
    /// slot's spawned flag cleared.
    ///
    /// The whole pass is one transition of the model: there is a sequence
    /// of per-task step decisions under which the executor's new state is
    /// exactly `poll_model` of its old one.  `poll` must not be invoked
    /// reentrantly; sole ownership of the executor enforces that here.
    pub fn poll(&mut self)
        requires
            old(self).wf(),
        ensures
            final(self).wf(),
            exists|ch: Seq<StepChoice<F>>|
                {
                    &&& ch.len() == old(self)@.queue.len()
                    &&& choices_wf(old(self)@, ch)
                    &&& final(self)@ == poll_model(old(self)@, ch)
                    &&& final(self).signal_count() == old(self).signal_count() + poll_fires(
                        old(self)@,
                        ch,
                    )
                },
    {
        let ghost m0 = self@;
        let ghost q0 = self.queue@;
        let ghost md = ExecutorModel { tasks: m0.tasks, queue: Seq::<int>::empty() };

        // Detach the whole queue in one step.
        let mut cur = self.rq_head;
        self.rq_head = NIL_INDEX;
        proof {
            self.queue@ = Seq::<int>::empty();
        }
        let ghost mut ch: Seq<StepChoice<F>> = Seq::empty();
        proof {
            assert(self@ =~= pass_model(md, q0.take(0), ch));
        }
        while cur != NIL_INDEX
            invariant
                self@.tasks.len() == m0.tasks.len(),
                self.tasks@.len() < NIL_INDEX,
                ch.len() <= q0.len(),
                q0.no_duplicates(),
                forall|k: int| 0 <= k < q0.len() ==> 0 <= #[trigger] q0[k] < m0.tasks.len(),
                m0.tasks == md.tasks,
                m0.queue == q0,
                cur == (if ch.len() == q0.len() {
                    NIL_INDEX
                } else {
                    q0[ch.len() as int] as usize
                }),
                forall|j: int|
                    ch.len() <= j < q0.len() - 1 ==> self.link_of(#[trigger] q0[j]) == q0[j + 1],
                ch.len() < q0.len() ==> self.link_of(q0.last()) == NIL_INDEX,
                self.wf(),
                choices_wf(m0, ch),
                self@ == pass_model(md, q0.take(ch.len() as int), ch),
                self.signal_count() == old(self).signal_count() + crate::executor::model::pass_fires(
                    md,
                    q0.take(ch.len() as int),
                    ch,
                ),
                forall|j: int|
                    ch.len() <= j < q0.len() ==> !self@.queue.contains(#[trigger] q0[j]),
                forall|j: int|
                    ch.len() <= j < q0.len() ==> self@.tasks[#[trigger] q0[j]] == m0.tasks[q0[j]],
            decreases q0.len() - ch.len(),
        {
            let ghost k = ch.len() as int;
            let ghost m_before = self@;
            let idx = cur;
            proof {
                assert(0 <= q0[k] < m0.tasks.len());
            }

            // Read the link onward, then visit the task.
            let nxt = self.tasks[idx].raw.next;
            let c = self.poll_visit(idx);
            cur = nxt;

            proof {
                lemma_pass_model_snoc(md, q0, ch, c@);
                crate::executor::model::lemma_visit_model_parts(m_before, q0[k], c@);
                ch = ch.push(c@);
                assert(q0.take(k + 1).drop_last() =~= q0.take(k));
                assert(self@ == pass_model(md, q0.take(ch.len() as int), ch));
                assert forall|j: int| ch.len() <= j < q0.len() - 1 implies self.link_of(
                    #[trigger] q0[j],
                ) == q0[j + 1] by {
                    assert(q0[j] != q0[k]);
                }
                if ch.len() < q0.len() {
                    assert(q0.last() != q0[k]);
                }
            }
        }
        proof {
            assert(ch.len() == q0.len());
            assert(q0.take(q0.len() as int) =~= q0);
            assert(self@ == poll_model(m0, ch));
        }
    }

    /// Registers the claimed task `idx`: the step behind `Spawner::spawn`.
    /// The task takes its place at the queue's head, so its first poll is
    /// scheduled at once, and the signal fires if the queue was empty.
    pub(crate) fn register(&mut self, idx: usize)
        requires
            old(self).wf(),
            token_valid(old(self)@, Some(idx as int)),
        ensures
            final(self).wf(),
            final(self)@ == register_model(old(self)@, idx as int),
            final(self).signal_count() == old(self).signal_count() + (if old(self)@.queue.len()
                == 0 {
                1nat
            } else {
                0nat
            }),
    {
        self.enqueue_task(idx);
    }

    /// Pushes task `idx` at the head of the run queue, marks it, and fires
    /// the signal when the queue was empty.  The caller answers for `idx`
    /// standing in no queue yet.
    fn enqueue_task(&mut self, idx: usize)
        requires
            old(self).wf(),
            0 <= idx < old(self)@.tasks.len(),
            !old(self)@.queue.contains(idx as int),
        ensures
            final(self).wf(),
            final(self)@ == register_model(old(self)@, idx as int),
            final(self).signal_count() == old(self).signal_count() + (if old(self)@.queue.len()
                == 0 {
                1nat
            } else {
                0nat
            }),
            forall|j: int|
                0 <= j < old(self)@.tasks.len() && j != idx ==> final(self).link_of(j) == old(
                    self,
                ).link_of(j),
    {
        proof {
            lemma_state_bits();
        }
        let was_empty = self.rq_head == NIL_INDEX;
        let s = self.tasks[idx].raw.state;
        self.tasks[idx].raw.next = self.rq_head;
        self.tasks[idx].raw.state = s | STATE_RUN_QUEUED;
        self.rq_head = idx;
        proof {
            self.queue@ = seq![idx as int] + self.queue@;
            assert(self@.tasks =~= register_model(old(self)@, idx as int).tasks);
            assert(self@ =~= register_model(old(self)@, idx as int));
        }
        if was_empty {
            // The ghost count moves exactly beside the one real signal.
            proof {
                self.signals@ = self.signals@ + 1;
            }
            self.notifier.notify();
        }
    }

    /// The wake transition on slot `idx`: when the task is spawned and not
    /// yet marked, it takes the run-queue mark, is pushed at the queue's
    /// head, and the signal fires if the queue was empty; in every other
    /// case — already marked, or not spawned — nothing changes at all, so
    /// any number of redundant wakes is harmless.
    pub fn wake(&mut self, idx: usize)
        requires
            old(self).wf(),
            0 <= idx < old(self)@.tasks.len(),
        ensures
            final(self).wf(),
            final(self)@ == wake_model(old(self)@, idx as int),
            final(self).signal_count() == old(self).signal_count() + (if wake_fires(
                old(self)@,
                idx as int,
            ) {
                1nat
            } else {
                0nat
            }),
    {
        proof {
            lemma_state_bits();
        }
        let s = self.tasks[idx].raw.state;
        if s & STATE_RUN_QUEUED != 0 || s & STATE_SPAWNED == 0 {
            proof {
                assert(self@ =~= wake_model(old(self)@, idx as int));
            }
            return ;
        }
        self.enqueue_task(idx);
        proof {
            assert(self@.tasks =~= wake_model(old(self)@, idx as int).tasks);
            assert(self@ =~= wake_model(old(self)@, idx as int));
        }
    }
}

/// Wakes the task a handle is addressed to: valid from any context between
/// or during poll passes, and a no-op when the task is already marked or no
/// longer spawned.
pub fn wake_task<F: Computation, N: Notifier>(exec: &mut Executor<F, N>, task: WakeHandle)
    requires
        old(exec).wf(),
        0 <= task.id() < old(exec)@.tasks.len(),
    ensures
        final(exec).wf(),
        final(exec)@ == wake_model(old(exec)@, task.id()),
        final(exec).signal_count() == old(exec).signal_count() + (if wake_fires(
            old(exec)@,
            task.id(),
        ) {
            1nat
        } else {
            0nat
        }),
{
    let idx = crate::executor::waker::task_from_waker(&task);
    exec.wake(idx);
}

/// The facts about the two flag bits that the state transitions rest on.
proof fn lemma_state_bits()
    ensures
        forall|s: u32| #![all_triggers] spawned_of(s | STATE_RUN_QUEUED) == spawned_of(s),
        forall|s: u32| #![all_triggers] queued_of(s | STATE_RUN_QUEUED),
        forall|s: u32| #![all_triggers] spawned_of(s & !STATE_RUN_QUEUED) == spawned_of(s),
        forall|s: u32| #![all_triggers] !queued_of(s & !STATE_RUN_QUEUED),
        forall|s: u32| #![all_triggers] queued_of(s & !STATE_SPAWNED) == queued_of(s),
        forall|s: u32| #![all_triggers] !spawned_of(s & !STATE_SPAWNED),
        !spawned_of(0),
        !queued_of(0),
        spawned_of(STATE_SPAWNED | STATE_RUN_QUEUED),
        queued_of(STATE_SPAWNED | STATE_RUN_QUEUED),
{
    assert((1u32 | 2u32) & 1u32 != 0u32) by (bit_vector);
    assert((1u32 | 2u32) & 2u32 != 0u32) by (bit_vector);
    assert forall|s: u32| #![all_triggers]
        spawned_of(s | STATE_RUN_QUEUED) == spawned_of(s) && queued_of(s | STATE_RUN_QUEUED) by {
        assert((s | 2u32) & 1u32 == s & 1u32) by (bit_vector);
        assert((s | 2u32) & 2u32 != 0u32) by (bit_vector);
    }
    assert forall|s: u32| #![all_triggers]
        spawned_of(s & !STATE_RUN_QUEUED) == spawned_of(s) && !queued_of(s & !STATE_RUN_QUEUED)
            && queued_of(s & !STATE_SPAWNED) == queued_of(s) && !spawned_of(
            s & !STATE_SPAWNED,
        ) by {
        assert((s & !2u32) & 1u32 == s & 1u32) by (bit_vector);
        assert((s & !2u32) & 2u32 == 0u32) by (bit_vector);
        assert((s & !1u32) & 2u32 == s & 2u32) by (bit_vector);
        assert((s & !1u32) & 1u32 == 0u32) by (bit_vector);
    }
    assert(0u32 & 1u32 == 0u32) by (bit_vector);
    assert(0u32 & 2u32 == 0u32) by (bit_vector);
}

} // verus!
