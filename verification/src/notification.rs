//! The notification object: a three-state kernel object implementing
//! asynchronous signal/wait semantics between threads.
//!
//! Invariant: the wait queue is non-empty exactly when the state is
//! `Waiting`; the accumulated badge word is meaningful exactly while the
//! state is `Active`. Badges sent while `Active` coalesce by bitwise OR, so
//! memory use is bounded by one word regardless of how many signals are
//! pending.

use vstd::prelude::*;
use crate::task::{ArchReg, Kernel, KernelView, SchedulerAction, ThreadState};

verus! {

/// The state of a notification.
#[derive(Clone, Copy, PartialEq, Eq, Structural, Debug)]
pub enum NtfnState {
    Idle,
    Waiting,
    Active,
}

/// The sequence left after unlinking the first occurrence of `v` from `s`
/// (equal to `s` when `v` does not occur).
pub open spec fn seq_remove_first(s: Seq<usize>, v: usize) -> Seq<usize>
    decreases s.len(),
{
    if s.len() == 0 {
        s
    } else if s[0] == v {
        s.drop_first()
    } else {
        seq![s[0]] + seq_remove_first(s.drop_first(), v)
    }
}

/// Unlinking at the first index where `v` occurs is removal at that index.
proof fn lemma_seq_remove_first_at(s: Seq<usize>, v: usize, i: int)
    requires
        0 <= i < s.len(),
        s[i] == v,
        forall|j: int| 0 <= j < i ==> s[j] != v,
    ensures
        seq_remove_first(s, v) == s.remove(i),
    decreases i,
{
    if i == 0 {
        assert(seq_remove_first(s, v) =~= s.remove(0));
    } else {
        lemma_seq_remove_first_at(s.drop_first(), v, i - 1);
        assert(seq_remove_first(s, v) =~= s.remove(i));
    }
}

/// A FIFO wait queue of thread indices. Threads join at the tail, leave at
/// the head, and a cancelled thread is unlinked from wherever it stands.
#[allow(non_camel_case_types)]
#[derive(Debug)]
pub struct tcb_queue_t {
    /// The queued thread indices, head first.
    pub tids: Vec<usize>,
}

impl View for tcb_queue_t {
    type V = Seq<usize>;

    open spec fn view(&self) -> Seq<usize> {
        self.tids@
    }
}

impl tcb_queue_t {
    /// An empty queue.
    pub fn new() -> (q: tcb_queue_t)
        ensures
            q@ == Seq::<usize>::empty(),
    {
        tcb_queue_t { tids: Vec::new() }
    }

    /// Whether the queue holds no thread.
    pub fn empty(&self) -> (r: bool)
        ensures
            r <==> self@.len() == 0,
    {
        self.tids.len() == 0
    }

    /// The thread at the head, or 0 when the queue is empty.
    pub fn head(&self) -> (r: usize)
        ensures
            r == (if self@.len() > 0 { self@[0] } else { 0 }),
    {
        if self.tids.len() > 0 {
            self.tids[0]
        } else {
            0
        }
    }

    /// The thread at the tail, or 0 when the queue is empty.
    pub fn tail(&self) -> (r: usize)
        ensures
            r == (if self@.len() > 0 { self@.last() } else { 0 }),
    {
        if self.tids.len() > 0 {
            self.tids[self.tids.len() - 1]
        } else {
            0
        }
    }

    /// Append a thread at the tail.
    pub fn ep_append(&mut self, tid: usize)
        ensures
            final(self)@ == old(self)@.push(tid),
    {
        self.tids.push(tid);
    }

    /// Unlink a thread from wherever it stands in the queue.
    pub fn ep_dequeue(&mut self, tid: usize)
        requires
            old(self)@.contains(tid),
        ensures
            final(self)@ == seq_remove_first(old(self)@, tid),
    {
        let ghost s = self.tids@;
        let n = self.tids.len();
        let mut i: usize = 0;
        while i < n && self.tids[i] != tid
            invariant
                n == self.tids@.len(),
                self.tids@ == s,
                i <= n,
                forall|j: int| 0 <= j < i ==> s[j] != tid,
            decreases n - i,
        {
            i = i + 1;
        }
        proof {
            if i == n {
                let k = choose|k: int| 0 <= k < s.len() && s[k] == tid;
                assert(false);
            }
            lemma_seq_remove_first_at(s, tid, i as int);
        }
        self.tids.remove(i);
    }

    /// An element-for-element copy of the queue.
    pub fn copied(&self) -> (q: tcb_queue_t)
        ensures
            q@ == self@,
    {
        let n = self.tids.len();
        let mut tids: Vec<usize> = Vec::new();
        let mut i: usize = 0;
        while i < n
            invariant
                n == self.tids@.len(),
                i <= n,
                tids@ == self.tids@.take(i as int),
            decreases n - i,
        {
            tids.push(self.tids[i]);
            proof {
                assert(self.tids@.take(i as int + 1) =~= self.tids@.take(i as int).push(
                    self.tids@[i as int],
                ));
            }
            i = i + 1;
        }
        proof {
            assert(self.tids@.take(n as int) =~= self.tids@);
        }
        tcb_queue_t { tids }
    }
}

/// Mathematical model of a notification object.
#[verifier::ext_equal]
pub struct NtfnView {
    pub state: NtfnState,
    pub bound_tcb: usize,
    pub msg_identifier: usize,
    pub queue: Seq<usize>,
    pub ptr: usize,
}

impl NtfnView {
    /// Well-formedness: the queue is non-empty exactly in `Waiting`, holds
    /// no null thread, and holds no thread twice.
    pub open spec fn wf(self) -> bool {
        &&& (self.state == NtfnState::Waiting <==> self.queue.len() > 0)
        &&& (forall|i: int| 0 <= i < self.queue.len() ==> #[trigger] self.queue[i] != 0)
        &&& (forall|i: int, j: int|
            0 <= i < j < self.queue.len() ==> self.queue[i] != self.queue[j])
    }

    /// Every queued thread names a slot of the given kernel's registry.
    pub open spec fn queue_valid(self, k: KernelView) -> bool {
        forall|i: int| 0 <= i < self.queue.len() ==> k.valid_tid(#[trigger] self.queue[i])
    }
}

/// The notification object: state, weak reference to a bound thread,
/// accumulated badge word, FIFO wait queue, and the object's own identity
/// (its address in kernel memory, used as a lookup key by thread records).
#[allow(non_camel_case_types)]
#[derive(Debug)]
pub struct notification_t {
    /// The protocol state.
    pub state: NtfnState,
    /// Index of the bound thread (0 = none). The notification does not own
    /// the thread; this is a lookup key into the thread registry.
    pub bound_tcb: usize,
    /// The accumulated badge bits, meaningful only while `Active`.
    pub msg_identifier: usize,
    /// The FIFO queue of threads blocked waiting on this notification.
    pub queue: tcb_queue_t,
    /// The object's identity.
    pub ptr: usize,
}

impl View for notification_t {
    type V = NtfnView;

    open spec fn view(&self) -> NtfnView {
        NtfnView {
            state: self.state,
            bound_tcb: self.bound_tcb,
            msg_identifier: self.msg_identifier,
            queue: self.queue@,
            ptr: self.ptr,
        }
    }
}

/// The pair of notification and kernel states left by `send_signal`.
pub open spec fn send_signal_spec(n: NtfnView, k: KernelView, badge: usize) -> (NtfnView, KernelView) {
    match n.state {
        NtfnState::Idle => {
            if n.bound_tcb != 0 && k.threads[n.bound_tcb as int].state
                == ThreadState::ThreadStateBlockedOnReceive {
                // Fast path: the bound thread is blocked specifically on a
                // receive, so the badge is delivered to it directly.
                (
                    n,
                    k.with_cancelled_ipc(n.bound_tcb).with_thread_state(
                        n.bound_tcb,
                        ThreadState::ThreadStateRunning,
                    ).with_register(n.bound_tcb, ArchReg::Badge, badge).possible_switched(
                        n.bound_tcb,
                    ),
                )
            } else {
                (NtfnView { state: NtfnState::Active, msg_identifier: badge, ..n }, k)
            }
        },
        NtfnState::Waiting => {
            let dest = n.queue[0];
            let rest = n.queue.drop_first();
            (
                NtfnView {
                    state: if rest.len() == 0 {
                        NtfnState::Idle
                    } else {
                        NtfnState::Waiting
                    },
                    queue: rest,
                    ..n
                },
                k.with_thread_state(dest, ThreadState::ThreadStateRunning).with_register(
                    dest,
                    ArchReg::Badge,
                    badge,
                ).possible_switched(dest),
            )
        },
        NtfnState::Active => {
            (NtfnView { msg_identifier: n.msg_identifier | badge, ..n }, k)
        },
    }
}

/// The pair of notification and kernel states left by `receive_signal`.
pub open spec fn receive_signal_spec(
    n: NtfnView,
    k: KernelView,
    tid: usize,
    is_blocking: bool,
) -> (NtfnView, KernelView) {
    match n.state {
        NtfnState::Idle | NtfnState::Waiting => {
            if is_blocking {
                (
                    NtfnView { state: NtfnState::Waiting, queue: n.queue.push(tid), ..n },
                    k.with_blocking_object(tid, n.ptr).with_thread_state(
                        tid,
                        ThreadState::ThreadStateBlockedOnNotification,
                    ),
                )
            } else {
                // A non-blocking poll that finds nothing yields a zero badge.
                (n, k.with_register(tid, ArchReg::Badge, 0))
            }
        },
        NtfnState::Active => {
            (
                NtfnView { state: NtfnState::Idle, ..n },
                k.with_register(tid, ArchReg::Badge, n.msg_identifier),
            )
        },
    }
}

/// The pair of notification and kernel states left by `cancel_signal`.
pub open spec fn cancel_signal_spec(n: NtfnView, k: KernelView, tid: usize) -> (
    NtfnView,
    KernelView,
) {
    let rest = seq_remove_first(n.queue, tid);
    (
        NtfnView {
            state: if rest.len() == 0 {
                NtfnState::Idle
            } else {
                n.state
            },
            queue: rest,
            ..n
        },
        k.with_thread_state(tid, ThreadState::ThreadStateInactive),
    )
}

/// The kernel after every thread of `q`, head to tail, has been marked
/// `Restart` and appended to the ready queue.
pub open spec fn requeued_restarted(k: KernelView, q: Seq<usize>) -> KernelView
    decreases q.len(),
{
    if q.len() == 0 {
        k
    } else {
        requeued_restarted(
            k.with_thread_state(q[0], ThreadState::ThreadStateRestart).enqueued(q[0]),
            q.drop_first(),
        )
    }
}

/// The pair of notification and kernel states left by `cacncel_all_signal`.
pub open spec fn cancel_all_spec(n: NtfnView, k: KernelView) -> (NtfnView, KernelView) {
    if n.state == NtfnState::Waiting {
        (
            NtfnView { state: NtfnState::Idle, queue: Seq::empty(), ..n },
            requeued_restarted(k, n.queue).resched(),
        )
    } else {
        (n, k)
    }
}

/// Restarting and enqueueing one more thread extends the batch at the tail.
proof fn lemma_requeued_snoc(k: KernelView, q: Seq<usize>, t: usize)
    ensures
        requeued_restarted(k, q.push(t)) == requeued_restarted(k, q).with_thread_state(
            t,
            ThreadState::ThreadStateRestart,
        ).enqueued(t),
    decreases q.len(),
{
    if q.len() == 0 {
        assert(q.push(t).drop_first() =~= q);
        assert(requeued_restarted(k, q.push(t)) == requeued_restarted(
            k.with_thread_state(t, ThreadState::ThreadStateRestart).enqueued(t),
            q,
        ));
    } else {
        assert(q.push(t)[0] == q[0]);
        assert(q.push(t).drop_first() =~= q.drop_first().push(t));
        lemma_requeued_snoc(
            k.with_thread_state(q[0], ThreadState::ThreadStateRestart).enqueued(q[0]),
            q.drop_first(),
            t,
        );
    }
}

/// What a whole restart-and-requeue batch does to the kernel: every thread
/// of the batch ends marked `Restart`, the ready queue is extended by the
/// batch in order (each thread appended exactly once), and nothing else of
/// the kernel changes.
pub proof fn lemma_requeued_effects(k: KernelView, q: Seq<usize>)
    requires
        k.wf(),
        forall|i: int| 0 <= i < q.len() ==> k.valid_tid(#[trigger] q[i]),
    ensures
        requeued_restarted(k, q).wf(),
        requeued_restarted(k, q).ready_queue == k.ready_queue + q,
        requeued_restarted(k, q).sched_action == k.sched_action,
        requeued_restarted(k, q).cur_thread == k.cur_thread,
        requeued_restarted(k, q).current_fault == k.current_fault,
        requeued_restarted(k, q).threads.len() == k.threads.len(),
        forall|i: int|
            0 <= i < q.len() ==> requeued_restarted(k, q).threads[#[trigger] q[i] as int].state
                == ThreadState::ThreadStateRestart,
        forall|j: int|
            0 <= j < k.threads.len() && !q.contains(j as usize) ==> requeued_restarted(
                k,
                q,
            ).threads[j] == k.threads[j],
    decreases q.len(),
{
    if q.len() == 0 {
        assert(requeued_restarted(k, q).ready_queue =~= k.ready_queue + q);
    } else {
        let k1 = k.with_thread_state(q[0], ThreadState::ThreadStateRestart).enqueued(q[0]);
        lemma_requeued_effects(k1, q.drop_first());
        assert(requeued_restarted(k, q).ready_queue =~= k.ready_queue + q);
        assert forall|i: int| 0 <= i < q.len() implies requeued_restarted(
            k,
            q,
        ).threads[#[trigger] q[i] as int].state == ThreadState::ThreadStateRestart by {
            if i > 0 {
                assert(q.drop_first()[i - 1] == q[i]);
            } else {
                if q.drop_first().contains(q[0]) {
                    let m = choose|m: int|
                        0 <= m < q.drop_first().len() && q.drop_first()[m] == q[0];
                    assert(requeued_restarted(k1, q.drop_first()).threads[
                        q.drop_first()[m] as int].state == ThreadState::ThreadStateRestart);
                } else {
                    assert(requeued_restarted(k1, q.drop_first()).threads[q[0] as int]
                        == k1.threads[q[0] as int]);
                }
            }
        }
        assert forall|j: int|
            0 <= j < k.threads.len() && !q.contains(j as usize) implies requeued_restarted(
            k,
            q,
        ).threads[j] == k.threads[j] by {
            assert(q[0] != j as usize) by {
                if q[0] == j as usize {
                    assert(q.contains(j as usize));
                }
            }
            assert(!q.drop_first().contains(j as usize)) by {
                if q.drop_first().contains(j as usize) {
                    let m = choose|m: int|
                        0 <= m < q.drop_first().len() && q.drop_first()[m] == j as usize;
                    assert(q[m + 1] == j as usize);
                    assert(q.contains(j as usize));
                }
            }
            assert(requeued_restarted(k1, q.drop_first()).threads[j] == k1.threads[j]);
            assert(k1.threads[j] == k.threads[j]);
        }
    }
}

/// Bulk-cancel law: a waiting notification, after all its signals are
/// cancelled, is idle with an empty queue; every previously queued thread is
/// marked `Restart` and requeued exactly once, in queue order; and a single
/// full scheduling decision is demanded for the whole batch.
pub proof fn lemma_cancel_all_effects(n: NtfnView, k: KernelView)
    requires
        n.wf(),
        k.wf(),
        n.queue_valid(k),
        n.state == NtfnState::Waiting,
    ensures
        cancel_all_spec(n, k).0.state == NtfnState::Idle,
        cancel_all_spec(n, k).0.queue.len() == 0,
        cancel_all_spec(n, k).1.sched_action == SchedulerAction::ChooseNewThread,
        cancel_all_spec(n, k).1.ready_queue == k.ready_queue + n.queue + (
        match k.sched_action {
            SchedulerAction::SwitchToThread(t) => seq![t],
            _ => Seq::<usize>::empty(),
        }),
        forall|i: int|
            0 <= i < n.queue.len() ==> cancel_all_spec(n, k).1.threads[
                #[trigger] n.queue[i] as int].state == ThreadState::ThreadStateRestart,
        forall|j: int|
            0 <= j < k.threads.len() && !n.queue.contains(j as usize) ==> cancel_all_spec(
                n,
                k,
            ).1.threads[j] == k.threads[j],
        cancel_all_spec(n, k).0.wf(),
        cancel_all_spec(n, k).1.wf(),
{
    lemma_requeued_effects(k, n.queue);
    let k1 = requeued_restarted(k, n.queue);
    match k.sched_action {
        SchedulerAction::SwitchToThread(t) => {
            assert(k1.resched().ready_queue =~= k.ready_queue + n.queue + seq![t]);
        },
        _ => {
            assert(k1.resched().ready_queue =~= k.ready_queue + n.queue
                + Seq::<usize>::empty());
        },
    }
}

impl notification_t {
    /// A fresh idle notification with the given object identity.
    pub fn new(ptr: usize) -> (n: notification_t)
        ensures
            n@ == (NtfnView {
                state: NtfnState::Idle,
                bound_tcb: 0,
                msg_identifier: 0,
                queue: Seq::empty(),
                ptr,
            }),
            n@.wf(),
    {
        notification_t {
            state: NtfnState::Idle,
            bound_tcb: 0,
            msg_identifier: 0,
            queue: tcb_queue_t::new(),
            ptr,
        }
    }

    /// The protocol state of the notification.
    pub fn get_state(&self) -> (r: NtfnState)
        ensures
            r == self@.state,
    {
        self.state
    }

    /// A copy of the wait queue.
    pub fn get_queue(&self) -> (q: tcb_queue_t)
        ensures
            q@ == self@.queue,
    {
        self.queue.copied()
    }

    /// Overwrite the wait queue with a copy of the given one.
    pub fn set_queue(&mut self, queue: &tcb_queue_t)
        ensures
            final(self)@ == (NtfnView { queue: queue@, ..old(self)@ }),
    {
        self.queue = queue.copied();
    }

    /// Make the notification active with the given badge word, overwriting
    /// any previous badge.
    pub fn active(&mut self, badge: usize)
        ensures
            final(self)@ == (NtfnView {
                state: NtfnState::Active,
                msg_identifier: badge,
                ..old(self)@
            }),
            old(self)@.wf() && old(self)@.state != NtfnState::Waiting ==> final(self)@.wf(),
    {
        self.state = NtfnState::Active;
        self.msg_identifier = badge;
    }

    /// Remove one waiting thread from the queue (head, middle, or tail) and
    /// mark it inactive; the notification goes idle when the queue empties.
    pub fn cancel_signal(&mut self, kernel: &mut Kernel, tid: usize)
        requires
            old(self)@.wf(),
            old(self)@.queue_valid(old(kernel)@),
            old(self)@.queue.contains(tid),
        ensures
            ({
                let (n2, k2) = cancel_signal_spec(old(self)@, old(kernel)@, tid);
                final(self)@ == n2 && final(kernel)@ == k2
            }),
            final(self)@.wf(),
            old(kernel)@.wf() ==> final(kernel)@.wf(),
    {
        let ghost q0 = self.queue@;
        self.queue.ep_dequeue(tid);
        if self.queue.empty() {
            self.state = NtfnState::Idle;
        }
        proof {
            lemma_wf_after_remove(old(self)@, tid);
        }
        kernel.set_thread_state(tid, ThreadState::ThreadStateInactive);
    }

    /// Cancel every pending wait: effective only while `Waiting`. The
    /// notification goes idle, and every queued thread (head to tail) is
    /// marked `Restart` and handed back to the scheduler's ready queue; one
    /// reschedule is demanded for the whole batch, not one per thread.
    pub fn cacncel_all_signal(&mut self, kernel: &mut Kernel)
        requires
            old(self)@.wf(),
            old(kernel)@.wf(),
            old(self)@.queue_valid(old(kernel)@),
        ensures
            ({
                let (n2, k2) = cancel_all_spec(old(self)@, old(kernel)@);
                final(self)@ == n2 && final(kernel)@ == k2
            }),
            final(self)@.wf(),
            final(kernel)@.wf(),
    {
        if self.state == NtfnState::Waiting {
            self.state = NtfnState::Idle;
            let ghost q = self.queue@;
            let n = self.queue.tids.len();
            let mut i: usize = 0;
            while i < n
                invariant
                    n == self.queue.tids@.len(),
                    self.queue.tids@ == q,
                    i <= n,
                    kernel@ == requeued_restarted(old(kernel)@, q.take(i as int)),
                    kernel@.wf(),
                    kernel@.threads.len() == old(kernel)@.threads.len(),
                    forall|j: int| 0 <= j < q.len() ==> old(kernel)@.valid_tid(#[trigger] q[j]),
                decreases n - i,
            {
                let tid = self.queue.tids[i];
                proof {
                    assert(q.take(i as int + 1) =~= q.take(i as int).push(q[i as int]));
                    lemma_requeued_snoc(old(kernel)@, q.take(i as int), q[i as int]);
                }
                kernel.set_thread_state(tid, ThreadState::ThreadStateRestart);
                kernel.sched_enqueue(tid);
                i = i + 1;
            }
            self.queue.tids.clear();
            proof {
                assert(q.take(n as int) =~= q);
            }
            kernel.reschedule_required();
            proof {
                assert(self@ =~= cancel_all_spec(old(self)@, old(kernel)@).0);
            }
        }
    }

    /// Bind a thread to the notification (the notification-side half of
    /// binding; a pure field write).
    pub fn bind_tcb(&mut self, tid: usize)
        requires
            tid != 0,
        ensures
            final(self)@ == (NtfnView { bound_tcb: tid, ..old(self)@ }),
            old(self)@.wf() ==> final(self)@.wf(),
    {
        self.bound_tcb = tid;
    }

    /// Clear the bound thread (a pure field write; the thread side keeps its
    /// back-reference).
    pub fn unbind_tcb(&mut self)
        ensures
            final(self)@ == (NtfnView { bound_tcb: 0, ..old(self)@ }),
            old(self)@.wf() ==> final(self)@.wf(),
    {
        self.bound_tcb = 0;
    }

    /// Clear the bound thread and, if one was set, make that thread forget
    /// its notification binding too. Use this instead of `unbind_tcb`
    /// whenever the thread side also needs updating, so no dangling
    /// back-reference is left.
    pub fn safe_unbind_tcb(&mut self, kernel: &mut Kernel)
        requires
            old(self)@.bound_tcb == 0 || old(kernel)@.valid_tid(old(self)@.bound_tcb),
        ensures
            final(self)@ == (NtfnView { bound_tcb: 0, ..old(self)@ }),
            final(kernel)@ == (if old(self)@.bound_tcb != 0 {
                old(kernel)@.with_unbound_notification(old(self)@.bound_tcb)
            } else {
                old(kernel)@
            }),
            old(self)@.wf() ==> final(self)@.wf(),
            old(kernel)@.wf() ==> final(kernel)@.wf(),
    {
        let tcb = self.bound_tcb;
        self.unbind_tcb();
        if tcb != 0 {
            kernel.unbind_notification(tcb);
        }
    }

    /// The notification's identity (its address in kernel memory).
    pub fn get_ptr(&self) -> (r: usize)
        ensures
            r == self@.ptr,
    {
        self.ptr
    }

    /// Send a signal to the notification.
    ///
    /// - `Idle`: if a thread is bound and that thread is blocked
    ///   specifically waiting to receive a message, its pending receive is
    ///   cancelled, the badge is delivered straight into its badge register,
    ///   it is made runnable and offered to the scheduler; otherwise the
    ///   notification becomes `Active` holding the badge.
    /// - `Waiting`: the head of the queue is dequeued, made runnable, given
    ///   the badge, and offered to the scheduler; the notification goes idle
    ///   when the queue empties.
    /// - `Active`: the badge bits are ORed into the accumulated word; no
    ///   receiver is activated.
    pub fn send_signal(&mut self, kernel: &mut Kernel, badge: usize)
        requires
            old(self)@.wf(),
            old(kernel)@.wf(),
            old(self)@.queue_valid(old(kernel)@),
            old(self)@.bound_tcb == 0 || old(kernel)@.valid_tid(old(self)@.bound_tcb),
        ensures
            ({
                let (n2, k2) = send_signal_spec(old(self)@, old(kernel)@, badge);
                final(self)@ == n2 && final(kernel)@ == k2
            }),
            final(self)@.wf(),
            final(kernel)@.wf(),
    {
        match self.state {
            NtfnState::Idle => {
                let bound = self.bound_tcb;
                if bound != 0 && kernel.threads[bound].state
                    == ThreadState::ThreadStateBlockedOnReceive {
                    kernel.cancel_ipc(bound);
                    kernel.set_thread_state(bound, ThreadState::ThreadStateRunning);
                    kernel.set_register(bound, ArchReg::Badge, badge);
                    kernel.possible_switch_to(bound);
                } else {
                    self.active(badge);
                }
            },
            NtfnState::Waiting => {
                // The kernel invariant `Waiting ==> queue non-empty` makes
                // the dequeue total; an empty queue here would mean a
                // corrupted object.
                let dest = self.queue.tids.remove(0);
                proof {
                    assert(self.queue@ =~= old(self)@.queue.drop_first());
                }
                if self.queue.tids.len() == 0 {
                    self.state = NtfnState::Idle;
                }
                kernel.set_thread_state(dest, ThreadState::ThreadStateRunning);
                kernel.set_register(dest, ArchReg::Badge, badge);
                kernel.possible_switch_to(dest);
            },
            NtfnState::Active => {
                self.msg_identifier = self.msg_identifier | badge;
            },
        }
    }

    /// Receive a signal from the notification.
    ///
    /// - `Idle`/`Waiting`, blocking: the thread records this notification as
    ///   its blocking object, becomes `BlockedOnNotification`, and joins the
    ///   tail of the queue; the notification is `Waiting`.
    /// - `Idle`/`Waiting`, non-blocking: the poll finds nothing and a zero
    ///   badge is delivered; nothing else changes.
    /// - `Active`: the accumulated badge word is delivered into the thread's
    ///   badge register and the notification goes idle (the message is
    ///   consumed, not accumulated further).
    pub fn receive_signal(&mut self, kernel: &mut Kernel, recv_tid: usize, is_blocking: bool)
        requires
            old(self)@.wf(),
            old(kernel)@.wf(),
            old(kernel)@.valid_tid(recv_tid),
            !old(self)@.queue.contains(recv_tid),
        ensures
            ({
                let (n2, k2) = receive_signal_spec(old(self)@, old(kernel)@, recv_tid, is_blocking);
                final(self)@ == n2 && final(kernel)@ == k2
            }),
            final(self)@.wf(),
            final(kernel)@.wf(),
    {
        match self.state {
            NtfnState::Idle | NtfnState::Waiting => {
                if is_blocking {
                    let ptr = self.ptr;
                    kernel.set_blocking_object(recv_tid, ptr);
                    kernel.set_thread_state(
                        recv_tid,
                        ThreadState::ThreadStateBlockedOnNotification,
                    );
                    self.queue.ep_append(recv_tid);
                    self.state = NtfnState::Waiting;
                    proof {
                        lemma_wf_after_push(old(self)@, recv_tid);
                    }
                } else {
                    kernel.set_register(recv_tid, ArchReg::Badge, 0);
                }
            },
            NtfnState::Active => {
                let msg = self.msg_identifier;
                kernel.set_register(recv_tid, ArchReg::Badge, msg);
                self.state = NtfnState::Idle;
            },
        }
    }
}

/// Removing a thread keeps the queue's elements nonzero and distinct.
proof fn lemma_wf_after_remove(n: NtfnView, tid: usize)
    requires
        n.wf(),
        n.queue.contains(tid),
    ensures
        forall|i: int|
            0 <= i < seq_remove_first(n.queue, tid).len() ==> #[trigger] seq_remove_first(
                n.queue,
                tid,
            )[i] != 0,
        forall|i: int, j: int|
            0 <= i < j < seq_remove_first(n.queue, tid).len() ==> seq_remove_first(n.queue, tid)[i]
                != seq_remove_first(n.queue, tid)[j],
{
    let q = n.queue;
    assert(exists|i: int|
        0 <= i < q.len() && q[i] == tid && (forall|j: int| 0 <= j < i ==> q[j] != tid)) by {
        let w = choose|w: int| 0 <= w < q.len() && q[w] == tid;
        lemma_first_occurrence(q, tid, w);
    }
    let i = choose|i: int|
        0 <= i < q.len() && q[i] == tid && (forall|j: int| 0 <= j < i ==> q[j] != tid);
    lemma_seq_remove_first_at(q, tid, i);
}

/// Below any occurrence of `v` there is a first occurrence.
proof fn lemma_first_occurrence(q: Seq<usize>, v: usize, w: int)
    requires
        0 <= w < q.len(),
        q[w] == v,
    ensures
        exists|i: int| 0 <= i < q.len() && q[i] == v && (forall|j: int| 0 <= j < i ==> q[j] != v),
    decreases w,
{
    if forall|j: int| 0 <= j < w ==> q[j] != v {
        assert(0 <= w < q.len() && q[w] == v && (forall|j: int| 0 <= j < w ==> q[j] != v));
    } else {
        let w2 = choose|w2: int| 0 <= w2 < w && q[w2] == v;
        lemma_first_occurrence(q, v, w2);
    }
}

/// Appending a fresh nonzero thread keeps the queue's elements nonzero and
/// distinct.
proof fn lemma_wf_after_push(n: NtfnView, tid: usize)
    requires
        n.wf(),
        tid != 0,
        !n.queue.contains(tid),
    ensures
        forall|i: int| 0 <= i < n.queue.push(tid).len() ==> #[trigger] n.queue.push(tid)[i] != 0,
        forall|i: int, j: int|
            0 <= i < j < n.queue.push(tid).len() ==> n.queue.push(tid)[i] != n.queue.push(tid)[j],
{
    assert forall|i: int, j: int|
        0 <= i < j < n.queue.push(tid).len() implies n.queue.push(tid)[i] != n.queue.push(
        tid,
    )[j] by {
        if j == n.queue.len() {
            assert(n.queue.push(tid)[i] == n.queue[i]);
            if n.queue[i] == tid {
                assert(n.queue.contains(tid));
            }
        }
    }
}

/// State-queue invariant law: every notification transition preserves
/// well-formedness, so in every reachable notification state the queue is
/// non-empty exactly when the state is `Waiting` (and the queue never holds
/// a null or duplicated thread). Together with the transitions themselves —
/// `send_signal_spec` ORs the badge into the word while `Active` and
/// `receive_signal_spec` consumes it — this pins the accumulated badge word
/// to exactly the signals sent since the last receive.
pub proof fn lemma_notification_state_invariant(
    n: NtfnView,
    k: KernelView,
    badge: usize,
    tid: usize,
    is_blocking: bool,
)
    requires
        n.wf(),
    ensures
        send_signal_spec(n, k, badge).0.wf(),
        k.valid_tid(tid) && !n.queue.contains(tid) ==> receive_signal_spec(
            n,
            k,
            tid,
            is_blocking,
        ).0.wf(),
        n.queue.contains(tid) ==> cancel_signal_spec(n, k, tid).0.wf(),
        cancel_all_spec(n, k).0.wf(),
{
    if k.valid_tid(tid) && !n.queue.contains(tid) {
        lemma_wf_after_push(n, tid);
    }
    if n.queue.contains(tid) {
        lemma_wf_after_remove(n, tid);
    }
}

/// Badge-accumulation law: badges sent while the notification is `Active`,
/// with no intervening receive, coalesce by bitwise OR — after sending `b1`
/// and then `b2`, the accumulated word is the old word ORed with `b1 | b2`,
/// and nothing else of the notification or the kernel has changed.
pub proof fn lemma_badge_accumulation(n: NtfnView, k: KernelView, b1: usize, b2: usize)
    requires
        n.state == NtfnState::Active,
    ensures
        ({
            let (n1, k1) = send_signal_spec(n, k, b1);
            let (n2, k2) = send_signal_spec(n1, k1, b2);
            &&& n2.state == NtfnState::Active
            &&& n2.msg_identifier == (n.msg_identifier | b1 | b2)
            &&& n2.msg_identifier == (n.msg_identifier | (b1 | b2))
            &&& n2.queue == n.queue
            &&& n2.bound_tcb == n.bound_tcb
            &&& n2.ptr == n.ptr
            &&& k2 == k
        }),
{
    let m = n.msg_identifier;
    assert(((m | b1) | b2) == (m | (b1 | b2))) by (bit_vector);
}

} // verus!
