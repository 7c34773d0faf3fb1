//! The ghost model of the raw executor: an image of the task arena and the
//! run queue, the state transitions every executable operation is proved to
//! implement, and the laws of the wake/poll protocol.

use vstd::prelude::*;

verus! {

/// Ghost image of one task slot: the two state-machine flags and the stored
/// computation, if any.
#[verifier::ext_equal]
pub struct TaskModel<F> {
    /// The slot holds a live computation.
    pub spawned: bool,
    /// The task carries the run-queue mark.
    pub queued: bool,
    /// The stored computation; present exactly while the task is spawned.
    pub fut: Option<F>,
}

impl<F> TaskModel<F> {
    /// A slot that a claim may take: no computation, no pending mark.
    pub open spec fn idle(self) -> bool {
        !self.spawned && !self.queued
    }
}

/// Ghost image of an executor: its task arena and its run queue, head first.
#[verifier::ext_equal]
pub struct ExecutorModel<F> {
    pub tasks: Seq<TaskModel<F>>,
    pub queue: Seq<int>,
}

impl<F> ExecutorModel<F> {
    pub open spec fn in_range(self, i: int) -> bool {
        0 <= i < self.tasks.len()
    }

    /// The executor invariant: every queue entry names a task, no task
    /// stands in the queue twice, a queued task carries the run-queue mark,
    /// and a spawned task holds a computation.
    pub open spec fn inv(self) -> bool {
        &&& forall|k: int| 0 <= k < self.queue.len() ==> self.in_range(#[trigger] self.queue[k])
        &&& self.queue.no_duplicates()
        &&& forall|k: int|
            0 <= k < self.queue.len() ==> self.tasks[#[trigger] self.queue[k]].queued
        &&& forall|i: int|
            self.in_range(i) && (#[trigger] self.tasks[i]).spawned ==> self.tasks[i].fut is Some
    }
}

/// `i` stands in `q` exactly once.
pub open spec fn queued_exactly_once(q: Seq<int>, i: int) -> bool {
    &&& q.contains(i)
    &&& forall|k: int, l: int| 0 <= k < l < q.len() && q[k] == i ==> q[l] != i
}

/// The wake transition on task `i`: when the task is spawned and not yet
/// marked, it takes the run-queue mark and is pushed at the queue's head;
/// in every other case — already marked, not spawned, or out of range —
/// waking changes nothing at all.
pub open spec fn wake_model<F>(m: ExecutorModel<F>, i: int) -> ExecutorModel<F> {
    if m.in_range(i) && m.tasks[i].spawned && !m.tasks[i].queued {
        ExecutorModel {
            tasks: m.tasks.update(
                i,
                TaskModel { spawned: true, queued: true, fut: m.tasks[i].fut },
            ),
            queue: seq![i] + m.queue,
        }
    } else {
        m
    }
}

/// Whether a wake of task `i` fires the executor's signal: it pushes onto
/// an empty queue, which is exactly the queue's turn from empty to
/// non-empty.
pub open spec fn wake_fires<F>(m: ExecutorModel<F>, i: int) -> bool {
    m.in_range(i) && m.tasks[i].spawned && !m.tasks[i].queued && m.queue.len() == 0
}

/// The claim transition on an idle slot `i`: the slot takes both flags and
/// the computation in one step; the queue is untouched, so the task is not
/// yet runnable.
pub open spec fn claim_model<F>(m: ExecutorModel<F>, i: int, f: F) -> ExecutorModel<F> {
    ExecutorModel {
        tasks: m.tasks.update(i, TaskModel { spawned: true, queued: true, fut: Some(f) }),
        queue: m.queue,
    }
}

/// The registration transition: a claimed task — marked but standing in no
/// queue — is pushed at the queue's head, scheduling its first poll.
pub open spec fn register_model<F>(m: ExecutorModel<F>, i: int) -> ExecutorModel<F> {
    ExecutorModel {
        tasks: m.tasks.update(
            i,
            TaskModel { spawned: m.tasks[i].spawned, queued: true, fut: m.tasks[i].fut },
        ),
        queue: seq![i] + m.queue,
    }
}

/// What one resumption step of a task decided: whether it invoked its own
/// wake handle during the step, whether it resolved, and — when it merely
/// suspended — the computation it left behind.
pub struct StepChoice<F> {
    pub woke: bool,
    pub done: bool,
    pub fut: Option<F>,
}

/// A choice sequence that a real pass over `m`'s queue can produce: a task
/// that was resumed and merely suspended always leaves a computation in its
/// slot.
pub open spec fn choices_wf<F>(m: ExecutorModel<F>, ch: Seq<StepChoice<F>>) -> bool {
    forall|k: int|
        0 <= k < ch.len() && k < m.queue.len() && m.tasks[m.queue[k]].spawned
            && !(#[trigger] ch[k]).done ==> ch[k].fut is Some
}

/// One visit of the poll pass to task `i`: the run-queue mark is cleared
/// first; a task no longer spawned is skipped; otherwise the task is
/// resumed once, a self-wake during the step is the wake transition, and a
/// resolved computation is destroyed and its spawned flag cleared.
pub open spec fn visit_model<F>(
    m: ExecutorModel<F>,
    i: int,
    c: StepChoice<F>,
) -> ExecutorModel<F> {
    let t = m.tasks[i];
    let m1 = ExecutorModel {
        tasks: m.tasks.update(i, TaskModel { spawned: t.spawned, queued: false, fut: t.fut }),
        queue: m.queue,
    };
    if !t.spawned {
        m1
    } else {
        let m2 = if c.woke {
            wake_model(m1, i)
        } else {
            m1
        };
        let t2 = m2.tasks[i];
        if c.done {
            ExecutorModel {
                tasks: m2.tasks.update(
                    i,
                    TaskModel { spawned: false, queued: t2.queued, fut: None },
                ),
                queue: m2.queue,
            }
        } else {
            ExecutorModel {
                tasks: m2.tasks.update(
                    i,
                    TaskModel { spawned: true, queued: t2.queued, fut: c.fut },
                ),
                queue: m2.queue,
            }
        }
    }
}

/// The poll pass applied to the first `ch.len()` entries of the detached
/// list `q`, in order of detachment.
pub open spec fn pass_model<F>(
    m: ExecutorModel<F>,
    q: Seq<int>,
    ch: Seq<StepChoice<F>>,
) -> ExecutorModel<F>
    decreases ch.len(),
{
    if ch.len() == 0 {
        m
    } else {
        visit_model(
            pass_model(m, q.take(ch.len() - 1), ch.drop_last()),
            q[ch.len() - 1],
            ch.last(),
        )
    }
}

/// The whole model transition of one `poll` call: the queue is detached and
/// every detached task is visited once, in detachment order, under the
/// decisions `ch`.
pub open spec fn poll_model<F>(m: ExecutorModel<F>, ch: Seq<StepChoice<F>>) -> ExecutorModel<F> {
    pass_model(ExecutorModel { tasks: m.tasks, queue: Seq::empty() }, m.queue, ch)
}

/// Whether one visit fires the signal: the visited task was still spawned,
/// woke itself during its step, and the queue was empty at that moment.
pub open spec fn visit_fires<F>(m: ExecutorModel<F>, i: int, c: StepChoice<F>) -> nat {
    if m.in_range(i) && m.tasks[i].spawned && c.woke && m.queue.len() == 0 {
        1
    } else {
        0
    }
}

/// How often a pass fires the signal: once for every self-wake that lands
/// on an empty queue.
pub open spec fn pass_fires<F>(m: ExecutorModel<F>, q: Seq<int>, ch: Seq<StepChoice<F>>) -> nat
    decreases ch.len(),
{
    if ch.len() == 0 {
        0
    } else {
        pass_fires(m, q.take(ch.len() - 1), ch.drop_last()) + visit_fires(
            pass_model(m, q.take(ch.len() - 1), ch.drop_last()),
            q[ch.len() - 1],
            ch.last(),
        )
    }
}

/// How often one whole poll pass fires the signal.
pub open spec fn poll_fires<F>(m: ExecutorModel<F>, ch: Seq<StepChoice<F>>) -> nat {
    pass_fires(ExecutorModel { tasks: m.tasks, queue: Seq::empty() }, m.queue, ch)
}

/// What a visited task's slot holds after its visit, as a function of its
/// state at the pass's start and of its step's decisions.
pub open spec fn visited_task<F>(t: TaskModel<F>, c: StepChoice<F>) -> TaskModel<F> {
    if !t.spawned {
        TaskModel { spawned: t.spawned, queued: false, fut: t.fut }
    } else if c.done {
        TaskModel { spawned: false, queued: c.woke, fut: None }
    } else {
        TaskModel { spawned: true, queued: c.woke, fut: c.fut }
    }
}

/// One visit taken apart: the visited slot becomes `visited_task` of its
/// former value, every other slot is untouched, and the queue gains the
/// task at its head exactly when the task was spawned and woke itself.
pub proof fn lemma_visit_model_parts<F>(m: ExecutorModel<F>, i: int, c: StepChoice<F>)
    requires
        m.in_range(i),
    ensures
        visit_model(m, i, c).tasks.len() == m.tasks.len(),
        visit_model(m, i, c).tasks[i] == visited_task(m.tasks[i], c),
        forall|j: int|
            0 <= j < m.tasks.len() && j != i ==> visit_model(m, i, c).tasks[j] == m.tasks[j],
        visit_model(m, i, c).queue == (if m.tasks[i].spawned && c.woke {
            seq![i] + m.queue
        } else {
            m.queue
        }),
{
    let t = m.tasks[i];
    if t.spawned {
        if c.woke {
            if c.done {
                assert(visit_model(m, i, c).tasks[i] =~= visited_task(t, c));
            } else {
                assert(visit_model(m, i, c).tasks[i] =~= visited_task(t, c));
            }
        }
    }
}

/// Extending a pass by one visit: the next entry of the detached list is
/// visited on the state the shorter pass reached.
pub proof fn lemma_pass_model_snoc<F>(
    m: ExecutorModel<F>,
    q: Seq<int>,
    ch: Seq<StepChoice<F>>,
    c: StepChoice<F>,
)
    requires
        ch.len() < q.len(),
    ensures
        pass_model(m, q.take(ch.len() as int + 1), ch.push(c)) == visit_model(
            pass_model(m, q.take(ch.len() as int), ch),
            q[ch.len() as int],
            c,
        ),
        pass_fires(m, q.take(ch.len() as int + 1), ch.push(c)) == pass_fires(
            m,
            q.take(ch.len() as int),
            ch,
        ) + visit_fires(pass_model(m, q.take(ch.len() as int), ch), q[ch.len() as int], c),
{
    let k = ch.len() as int;
    assert(ch.push(c).drop_last() =~= ch);
    assert(q.take(k + 1).take(k) =~= q.take(k));
    assert(q.take(k + 1)[k] == q[k]);
}

/// The wake transition preserves the executor invariant.
pub proof fn lemma_wake_preserves_inv<F>(m: ExecutorModel<F>, i: int)
    requires
        m.inv(),
    ensures
        wake_model(m, i).inv(),
{
    if m.in_range(i) && m.tasks[i].spawned && !m.tasks[i].queued {
        let r = wake_model(m, i);
        assert(!m.queue.contains(i)) by {
            if m.queue.contains(i) {
                let k = choose|k: int| 0 <= k < m.queue.len() && m.queue[k] == i;
                assert(m.tasks[m.queue[k]].queued);
            }
        }
        assert(r.queue.no_duplicates()) by {
            assert(forall|k: int| 0 < k < r.queue.len() ==> r.queue[k] == m.queue[k - 1]);
        }
        assert(forall|k: int|
            0 <= k < r.queue.len() ==> r.tasks[#[trigger] r.queue[k]].queued) by {
            assert(forall|k: int| 0 < k < r.queue.len() ==> r.queue[k] == m.queue[k - 1]);
        }
    }
}

/// The state after `n` wakes of task `i` in a row.
pub open spec fn wakes_n<F>(m: ExecutorModel<F>, i: int, n: nat) -> ExecutorModel<F>
    decreases n,
{
    if n == 0 {
        m
    } else {
        wake_model(wakes_n(m, i, (n - 1) as nat), i)
    }
}

/// Waking is idempotent: a second wake of the same task, with no poll in
/// between, changes nothing.
pub proof fn lemma_wake_idempotent<F>(m: ExecutorModel<F>, i: int)
    requires
        m.inv(),
    ensures
        wake_model(wake_model(m, i), i) == wake_model(m, i),
{
}

/// Any number of wakes of one task between two polls, from however many
/// contexts, is the same transition as a single wake, and leaves the task
/// with at most one run-queue entry.
pub proof fn lemma_wake_dedup<F>(m: ExecutorModel<F>, i: int, n: nat)
    requires
        m.inv(),
        n >= 1,
    ensures
        wakes_n(m, i, n) == wake_model(m, i),
        wakes_n(m, i, n).inv(),
        forall|k: int, l: int|
            0 <= k < l < wakes_n(m, i, n).queue.len() && wakes_n(m, i, n).queue[k] == i
                ==> wakes_n(m, i, n).queue[l] != i,
        m.in_range(i) && m.tasks[i].spawned && !m.tasks[i].queued ==> queued_exactly_once(
            wakes_n(m, i, n).queue,
            i,
        ),
    decreases n,
{
    lemma_wake_preserves_inv(m, i);
    if n == 1 {
        assert(wakes_n(m, i, 0) == m);
        assert(wakes_n(m, i, 1) == wake_model(m, i));
    } else {
        lemma_wake_dedup(m, i, (n - 1) as nat);
        lemma_wake_idempotent(m, i);
        assert(wakes_n(m, i, n) == wake_model(wakes_n(m, i, (n - 1) as nat), i));
    }
    let r = wake_model(m, i);
    assert(r.inv());
    assert(forall|k: int, l: int|
        0 <= k < l < r.queue.len() && r.queue[k] == i ==> r.queue[l] != i);
    if m.in_range(i) && m.tasks[i].spawned && !m.tasks[i].queued {
        assert(r.queue[0] == i);
    }
}

/// Which tasks a pass pushes back: a visited task stands in the pushed list
/// exactly when its step woke it, the pushed list repeats no task, and it
/// holds nothing from outside the detached list.
pub proof fn lemma_pass_pushed_membership<F>(
    m: ExecutorModel<F>,
    q: Seq<int>,
    ch: Seq<StepChoice<F>>,
)
    requires
        ch.len() == q.len(),
        q.no_duplicates(),
    ensures
        forall|e: int| pass_pushed(m, q, ch).contains(e) ==> q.contains(e),
        pass_pushed(m, q, ch).no_duplicates(),
        forall|k: int|
            0 <= k < q.len() ==> (pass_pushed(m, q, ch).contains(#[trigger] q[k]) <==> (m.tasks[q[k]].spawned
                && ch[k].woke)),
    decreases ch.len(),
{
    if ch.len() > 0 {
        let n = ch.len() - 1;
        let qp = q.take(n);
        let chp = ch.drop_last();
        let i = q[n];
        assert(qp.no_duplicates()) by {
            assert(forall|a: int| 0 <= a < n ==> qp[a] == q[a]);
        }
        lemma_pass_pushed_membership(m, qp, chp);
        let pre = pass_pushed(m, qp, chp);
        let r = pass_pushed(m, q, ch);
        assert(!qp.contains(i)) by {
            if qp.contains(i) {
                let a = choose|a: int| 0 <= a < qp.len() && qp[a] == i;
                assert(q[a] == q[n]);
            }
        }
        assert(forall|e: int| qp.contains(e) ==> q.contains(e)) by {
            assert forall|e: int| qp.contains(e) implies q.contains(e) by {
                let a = choose|a: int| 0 <= a < qp.len() && qp[a] == e;
                assert(q[a] == e);
            }
        }
        assert(!pre.contains(i));
        if m.tasks[i].spawned && ch.last().woke {
            assert(r == seq![i] + pre);
            assert(r.no_duplicates()) by {
                assert(forall|k: int| 0 < k < r.len() ==> r[k] == pre[k - 1]);
                assert forall|k: int, l: int|
                    0 <= k < l < r.len() implies r[k] != r[l] by {
                    if k > 0 {
                        assert(pre[k - 1] != pre[l - 1]);
                    } else {
                        assert(r[l] == pre[l - 1]);
                        assert(pre.contains(pre[l - 1]));
                    }
                }
            }
            assert forall|e: int| #[trigger] r.contains(e) implies q.contains(e) by {
                let a = choose|a: int| 0 <= a < r.len() && r[a] == e;
                if a == 0 {
                    assert(q[n] == e);
                } else {
                    assert(pre[a - 1] == e);
                    assert(pre.contains(e));
                }
            }
            assert forall|k: int| 0 <= k < q.len() implies (r.contains(#[trigger] q[k]) <==> (
            m.tasks[q[k]].spawned && ch[k].woke)) by {
                if k < n {
                    assert(qp[k] == q[k]);
                    assert(chp[k] == ch[k]);
                    if pre.contains(q[k]) {
                        let a = choose|a: int| 0 <= a < pre.len() && pre[a] == q[k];
                        assert(r[a + 1] == q[k]);
                    }
                    if r.contains(q[k]) {
                        let a = choose|a: int| 0 <= a < r.len() && r[a] == q[k];
                        if a == 0 {
                            assert(q[n] == q[k]);
                        } else {
                            assert(pre[a - 1] == q[k]);
                            assert(pre.contains(q[k]));
                        }
                    }
                } else {
                    assert(k == n);
                    assert(r[0] == i);
                    assert(r.contains(i));
                }
            }
        } else {
            assert(r == pre);
            assert forall|k: int| 0 <= k < q.len() implies (r.contains(#[trigger] q[k]) <==> (
            m.tasks[q[k]].spawned && ch[k].woke)) by {
                if k < n {
                    assert(qp[k] == q[k]);
                    assert(chp[k] == ch[k]);
                } else {
                    assert(k == n);
                    assert(!pre.contains(i));
                }
            }
        }
    }
}

/// A task that is resumed during a pass and wakes itself during its own
/// step is queued again for exactly one later pass: the new queue holds it
/// exactly once, and its run-queue mark is set.  It is never resumed twice
/// within the pass itself: the pass visits each detached entry once, and
/// the detached list repeats no task.
pub proof fn lemma_self_wake_requeued_once<F>(
    m: ExecutorModel<F>,
    ch: Seq<StepChoice<F>>,
    k: int,
)
    requires
        m.inv(),
        ch.len() == m.queue.len(),
        0 <= k < m.queue.len(),
        m.tasks[m.queue[k]].spawned,
        ch[k].woke,
    ensures
        queued_exactly_once(poll_model(m, ch).queue, m.queue[k]),
        poll_model(m, ch).tasks[m.queue[k]].queued,
{
    let md = ExecutorModel { tasks: m.tasks, queue: Seq::<int>::empty() };
    lemma_pass_characterize(md, m.queue, ch);
    lemma_pass_pushed_membership(md, m.queue, ch);
    let r = poll_model(m, ch);
    let pushed = pass_pushed(md, m.queue, ch);
    assert(r.queue =~= pushed);
    assert(r.tasks[m.queue[k]] == visited_task(m.tasks[m.queue[k]], ch[k]));
}

/// A resumed task that does not wake itself during its step is not in the
/// queue the pass leaves behind, and carries no run-queue mark: with no
/// later wake it will not be resumed again.
pub proof fn lemma_no_wake_not_requeued<F>(m: ExecutorModel<F>, ch: Seq<StepChoice<F>>, k: int)
    requires
        m.inv(),
        ch.len() == m.queue.len(),
        0 <= k < m.queue.len(),
        !ch[k].woke || !m.tasks[m.queue[k]].spawned,
    ensures
        !poll_model(m, ch).queue.contains(m.queue[k]),
        !poll_model(m, ch).tasks[m.queue[k]].queued,
{
    let md = ExecutorModel { tasks: m.tasks, queue: Seq::<int>::empty() };
    lemma_pass_characterize(md, m.queue, ch);
    lemma_pass_pushed_membership(md, m.queue, ch);
    let r = poll_model(m, ch);
    assert(r.queue =~= pass_pushed(md, m.queue, ch));
    assert(r.tasks[m.queue[k]] == visited_task(m.tasks[m.queue[k]], ch[k]));
}

/// Slot reuse: when a task's computation resolves during a pass and the
/// task did not wake itself, its slot comes out idle — no residual state,
/// no residual queue entry — and by the claim transition's contract it can
/// be claimed and spawned again with an independent computation.
pub proof fn lemma_slot_reuse<F>(m: ExecutorModel<F>, ch: Seq<StepChoice<F>>, k: int)
    requires
        m.inv(),
        ch.len() == m.queue.len(),
        0 <= k < m.queue.len(),
        m.tasks[m.queue[k]].spawned,
        ch[k].done,
        !ch[k].woke,
    ensures
        poll_model(m, ch).tasks[m.queue[k]].idle(),
        poll_model(m, ch).tasks[m.queue[k]].fut is None,
        !poll_model(m, ch).queue.contains(m.queue[k]),
{
    let md = ExecutorModel { tasks: m.tasks, queue: Seq::<int>::empty() };
    lemma_pass_characterize(md, m.queue, ch);
    lemma_pass_pushed_membership(md, m.queue, ch);
    let r = poll_model(m, ch);
    assert(r.queue =~= pass_pushed(md, m.queue, ch));
    assert(r.tasks[m.queue[k]] == visited_task(m.tasks[m.queue[k]], ch[k]));
}

/// Under the invariant the queue cannot outgrow the arena: its entries are
/// distinct slot indices.
pub proof fn lemma_queue_len_bounded<F>(m: ExecutorModel<F>)
    requires
        m.inv(),
    ensures
        m.queue.len() <= m.tasks.len(),
{
    broadcast use vstd::seq_lib::group_seq_properties;
    broadcast use vstd::set::group_set_axioms;
    broadcast use vstd::seq_lib::seq_to_set_is_finite;

    m.queue.unique_seq_to_set();
    let r = vstd::set_lib::set_int_range(0, m.tasks.len() as int);
    vstd::set_lib::lemma_int_range(0, m.tasks.len() as int);
    assert forall|x: int| m.queue.to_set().contains(x) implies r.contains(x) by {
        assert(m.queue.contains(x));
        let k = choose|k: int| 0 <= k < m.queue.len() && m.queue[k] == x;
        assert(m.in_range(m.queue[k]));
    }
    vstd::set_lib::lemma_len_subset(m.queue.to_set(), r);
}

/// The tasks a pass pushes back onto the queue — exactly the visited tasks
/// that were still spawned and woke themselves during their own step — in
/// the order the new queue holds them: pushed last, standing first.
pub open spec fn pass_pushed<F>(
    m: ExecutorModel<F>,
    q: Seq<int>,
    ch: Seq<StepChoice<F>>,
) -> Seq<int>
    decreases ch.len(),
{
    if ch.len() == 0 {
        Seq::empty()
    } else {
        let pre = pass_pushed(m, q.take(ch.len() - 1), ch.drop_last());
        if m.tasks[q[ch.len() - 1]].spawned && ch.last().woke {
            seq![q[ch.len() - 1]] + pre
        } else {
            pre
        }
    }
}

/// A pass taken apart, visit by visit: every task outside the detached list
/// is untouched; the task of each detached entry ends as `visited_task` of
/// its state at the pass's start; and the new queue is exactly the pushed
/// tasks in front of whatever the queue held when the pass began.
pub proof fn lemma_pass_characterize<F>(m: ExecutorModel<F>, q: Seq<int>, ch: Seq<StepChoice<F>>)
    requires
        ch.len() == q.len(),
        q.no_duplicates(),
        forall|k: int| 0 <= k < q.len() ==> 0 <= #[trigger] q[k] < m.tasks.len(),
    ensures
        pass_model(m, q, ch).tasks.len() == m.tasks.len(),
        forall|i: int|
            0 <= i < m.tasks.len() && !q.contains(i) ==> pass_model(m, q, ch).tasks[i]
                == m.tasks[i],
        forall|k: int|
            0 <= k < q.len() ==> pass_model(m, q, ch).tasks[#[trigger] q[k]] == visited_task(
                m.tasks[q[k]],
                ch[k],
            ),
        pass_model(m, q, ch).queue == pass_pushed(m, q, ch) + m.queue,
    decreases ch.len(),
{
    if ch.len() == 0 {
        assert(pass_pushed(m, q, ch) + m.queue =~= m.queue);
    } else {
        let n = ch.len() - 1;
        let qp = q.take(n);
        let chp = ch.drop_last();
        let i = q[n];
        let c = ch.last();
        assert(qp.no_duplicates()) by {
            assert(forall|a: int| 0 <= a < n ==> qp[a] == q[a]);
        }
        assert(forall|k: int| 0 <= k < qp.len() ==> 0 <= #[trigger] qp[k] < m.tasks.len());
        lemma_pass_characterize(m, qp, chp);
        let mp = pass_model(m, qp, chp);
        assert(!qp.contains(i)) by {
            if qp.contains(i) {
                let a = choose|a: int| 0 <= a < qp.len() && qp[a] == i;
                assert(q[a] == q[n]);
            }
        }
        assert(mp.tasks[i] == m.tasks[i]);
        lemma_visit_model_parts(mp, i, c);
        let r = pass_model(m, q, ch);
        assert(r == visit_model(mp, i, c));

        assert forall|i2: int| 0 <= i2 < m.tasks.len() && !q.contains(i2) implies r.tasks[i2]
            == m.tasks[i2] by {
            assert(!qp.contains(i2)) by {
                if qp.contains(i2) {
                    let a = choose|a: int| 0 <= a < qp.len() && qp[a] == i2;
                    assert(q[a] == i2);
                }
            }
            assert(i2 != i) by {
                assert(q[n] == i);
            }
        }
        assert forall|k: int| 0 <= k < q.len() implies r.tasks[#[trigger] q[k]] == visited_task(
            m.tasks[q[k]],
            ch[k],
        ) by {
            if k < n {
                assert(q[k] != i);
                assert(qp[k] == q[k]);
                assert(chp[k] == ch[k]);
                assert(mp.tasks[q[k]] == visited_task(m.tasks[q[k]], ch[k]));
            } else {
                assert(k == n);
            }
        }
        assert(r.queue == pass_pushed(m, q, ch) + m.queue) by {
            if m.tasks[i].spawned && c.woke {
                assert(r.queue == seq![i] + mp.queue);
                assert(seq![i] + (pass_pushed(m, qp, chp) + m.queue) =~= (seq![i] + pass_pushed(
                    m,
                    qp,
                    chp,
                )) + m.queue);
            }
        }
    }
}

} // verus!
