//! The thread registry and the scheduler collaborator.
//!
//! Threads are identified by small nonzero indices into a central registry
//! (weak references such as a notification's bound thread are stored as such
//! indices, with 0 meaning "none"). The scheduler keeps a FIFO ready queue
//! and a pending scheduling decision, as in the `possibleSwitchTo` /
//! `rescheduleRequired` / `schedule` protocol.

use vstd::prelude::*;
use crate::common::seL4_Fault_t;

verus! {

/// The execution state of a thread.
#[derive(Clone, Copy, PartialEq, Eq, Structural, Debug)]
pub enum ThreadState {
    ThreadStateInactive,
    ThreadStateRunning,
    ThreadStateRestart,
    ThreadStateBlockedOnReceive,
    ThreadStateBlockedOnNotification,
    ThreadStateIdleThreadState,
}

/// The architecture registers this core reads or writes on a thread.
#[derive(Clone, Copy, PartialEq, Eq, Structural, Debug)]
pub enum ArchReg {
    /// The register in which a delivered signal's badge is placed.
    Badge,
    /// The saved instruction pointer of the last trap.
    FaultIP,
}

/// A thread control block, reduced to the fields this core operates on.
#[allow(non_camel_case_types)]
#[derive(Clone, Copy, PartialEq, Eq, Structural, Debug)]
pub struct tcb_t {
    /// The thread's execution state.
    pub state: ThreadState,
    /// The badge register (where a received signal's badge is delivered).
    pub badge: usize,
    /// The saved instruction pointer of the thread's last trap.
    pub fault_ip: usize,
    /// Identity of the object the thread is blocked on (0 = none).
    pub blocking_object: usize,
    /// Identity of the notification bound to this thread (0 = none).
    pub bound_notification: usize,
    /// The last fault record delivered to this thread.
    pub fault: seL4_Fault_t,
}

/// The value of a freshly registered thread record.
pub open spec fn initial_tcb() -> tcb_t {
    tcb_t {
        state: ThreadState::ThreadStateInactive,
        badge: 0,
        fault_ip: 0,
        blocking_object: 0,
        bound_notification: 0,
        fault: seL4_Fault_t::NullFault,
    }
}

impl tcb_t {
    /// A fresh, inactive thread record.
    pub fn new() -> (t: tcb_t)
        ensures
            t == initial_tcb(),
    {
        tcb_t {
            state: ThreadState::ThreadStateInactive,
            badge: 0,
            fault_ip: 0,
            blocking_object: 0,
            bound_notification: 0,
            fault: seL4_Fault_t::NullFault,
        }
    }
}

/// The pending scheduling decision.
#[derive(Clone, Copy, PartialEq, Eq, Structural, Debug)]
pub enum SchedulerAction {
    /// Keep running the current thread.
    ResumeCurrentThread,
    /// A full scheduling decision is required.
    ChooseNewThread,
    /// Switch directly to the named thread.
    SwitchToThread(usize),
}

/// Mathematical model of the kernel context: the thread registry, the
/// scheduler state, and the current-fault mailbox.
#[verifier::ext_equal]
pub struct KernelView {
    pub threads: Seq<tcb_t>,
    pub ready_queue: Seq<usize>,
    pub sched_action: SchedulerAction,
    pub cur_thread: usize,
    pub current_fault: seL4_Fault_t,
}

impl KernelView {
    /// A thread index is valid when it names a registry slot other than the
    /// reserved slot 0 (slot 0 stands for "no thread" / the idle thread).
    pub open spec fn valid_tid(self, tid: usize) -> bool {
        1 <= tid && tid < self.threads.len()
    }

    /// Well-formedness: the registry holds at least the idle slot, the
    /// current thread and every scheduler reference name a registry slot,
    /// and a pending switch target is a real thread.
    pub open spec fn wf(self) -> bool {
        &&& self.threads.len() >= 1
        &&& self.cur_thread < self.threads.len()
        &&& forall|i: int| 0 <= i < self.ready_queue.len() ==> self.valid_tid(#[trigger] self.ready_queue[i])
        &&& (self.sched_action matches SchedulerAction::SwitchToThread(t) ==> self.valid_tid(t))
    }

    /// The registry after changing one thread's execution state.
    pub open spec fn with_thread_state(self, tid: usize, state: ThreadState) -> KernelView {
        KernelView {
            threads: self.threads.update(tid as int, tcb_t { state, ..self.threads[tid as int] }),
            ..self
        }
    }

    /// The registry after writing one architecture register of one thread.
    pub open spec fn with_register(self, tid: usize, reg: ArchReg, value: usize) -> KernelView {
        KernelView {
            threads: self.threads.update(
                tid as int,
                match reg {
                    ArchReg::Badge => tcb_t { badge: value, ..self.threads[tid as int] },
                    ArchReg::FaultIP => tcb_t { fault_ip: value, ..self.threads[tid as int] },
                },
            ),
            ..self
        }
    }

    /// The registry after a thread forgets the object it was blocked on
    /// (cancellation of a pending receive).
    pub open spec fn with_cancelled_ipc(self, tid: usize) -> KernelView {
        KernelView {
            threads: self.threads.update(
                tid as int,
                tcb_t { blocking_object: 0, ..self.threads[tid as int] },
            ),
            ..self
        }
    }

    /// The registry after recording which object a thread is blocked on.
    pub open spec fn with_blocking_object(self, tid: usize, obj: usize) -> KernelView {
        KernelView {
            threads: self.threads.update(
                tid as int,
                tcb_t { blocking_object: obj, ..self.threads[tid as int] },
            ),
            ..self
        }
    }

    /// The registry after a thread forgets its notification binding.
    pub open spec fn with_unbound_notification(self, tid: usize) -> KernelView {
        KernelView {
            threads: self.threads.update(
                tid as int,
                tcb_t { bound_notification: 0, ..self.threads[tid as int] },
            ),
            ..self
        }
    }

    /// The scheduler after appending a thread to the ready queue.
    pub open spec fn enqueued(self, tid: usize) -> KernelView {
        KernelView { ready_queue: self.ready_queue.push(tid), ..self }
    }

    /// The scheduler after a reschedule is demanded: a pending direct switch
    /// target falls back into the ready queue, and a full decision is due.
    pub open spec fn resched(self) -> KernelView {
        match self.sched_action {
            SchedulerAction::SwitchToThread(t) => KernelView {
                ready_queue: self.ready_queue.push(t),
                sched_action: SchedulerAction::ChooseNewThread,
                ..self
            },
            _ => KernelView { sched_action: SchedulerAction::ChooseNewThread, ..self },
        }
    }

    /// The scheduler after a thread is offered as an immediate switch target:
    /// it becomes the pending target if no other decision is pending,
    /// otherwise it is merely enqueued and a full decision is due.
    pub open spec fn possible_switched(self, tid: usize) -> KernelView {
        if self.sched_action == SchedulerAction::ResumeCurrentThread {
            KernelView { sched_action: SchedulerAction::SwitchToThread(tid), ..self }
        } else {
            self.resched().enqueued(tid)
        }
    }

    /// The kernel after acting on the pending scheduling decision: a direct
    /// switch installs its target; a full decision takes the head of the
    /// ready queue, or the idle slot when nothing is runnable.
    pub open spec fn scheduled(self) -> KernelView {
        match self.sched_action {
            SchedulerAction::ResumeCurrentThread => self,
            SchedulerAction::SwitchToThread(t) => KernelView {
                cur_thread: t,
                sched_action: SchedulerAction::ResumeCurrentThread,
                ..self
            },
            SchedulerAction::ChooseNewThread => if self.ready_queue.len() > 0 {
                KernelView {
                    cur_thread: self.ready_queue[0],
                    ready_queue: self.ready_queue.drop_first(),
                    sched_action: SchedulerAction::ResumeCurrentThread,
                    ..self
                }
            } else {
                KernelView {
                    cur_thread: 0,
                    sched_action: SchedulerAction::ResumeCurrentThread,
                    ..self
                }
            },
        }
    }

    /// The kernel after activating the current thread: a restarted thread
    /// resumes running; any other state is left as it is.
    pub open spec fn activated(self) -> KernelView {
        if self.threads[self.cur_thread as int].state == ThreadState::ThreadStateRestart {
            self.with_thread_state(self.cur_thread, ThreadState::ThreadStateRunning)
        } else {
            self
        }
    }

    /// The kernel after the current-fault mailbox is filled.
    pub open spec fn with_current_fault(self, fault: seL4_Fault_t) -> KernelView {
        KernelView { current_fault: fault, ..self }
    }

    /// The kernel after the current fault is delivered to a thread: the
    /// record is parked on the thread and the one-shot mailbox is consumed.
    pub open spec fn delivered(self, tid: usize) -> KernelView {
        KernelView {
            threads: self.threads.update(
                tid as int,
                tcb_t { fault: self.current_fault, ..self.threads[tid as int] },
            ),
            current_fault: seL4_Fault_t::NullFault,
            ..self
        }
    }
}

/// The kernel context: the thread registry, the scheduler, and the
/// current-fault mailbox. A single execution context mutates it, so every
/// operation below is an ordinary sequential function.
pub struct Kernel {
    /// The thread registry; slot 0 is the reserved idle slot.
    pub threads: Vec<tcb_t>,
    /// The scheduler's FIFO ready queue of thread indices.
    pub ready_queue: Vec<usize>,
    /// The pending scheduling decision.
    pub sched_action: SchedulerAction,
    /// The thread currently executing (0 = the idle slot).
    pub cur_thread: usize,
    /// The one-shot "current fault" mailbox.
    pub current_fault: seL4_Fault_t,
}

impl View for Kernel {
    type V = KernelView;

    open spec fn view(&self) -> KernelView {
        KernelView {
            threads: self.threads@,
            ready_queue: self.ready_queue@,
            sched_action: self.sched_action,
            cur_thread: self.cur_thread,
            current_fault: self.current_fault,
        }
    }
}

impl Kernel {
    /// A fresh kernel context holding only the idle slot.
    pub fn new() -> (k: Kernel)
        ensures
            k@.wf(),
            k@.threads.len() == 1,
            k@.threads[0] == initial_tcb(),
            k@.ready_queue.len() == 0,
            k@.sched_action == SchedulerAction::ResumeCurrentThread,
            k@.cur_thread == 0,
            k@.current_fault == seL4_Fault_t::NullFault,
    {
        let mut threads: Vec<tcb_t> = Vec::new();
        threads.push(tcb_t::new());
        Kernel {
            threads,
            ready_queue: Vec::new(),
            sched_action: SchedulerAction::ResumeCurrentThread,
            cur_thread: 0,
            current_fault: seL4_Fault_t::NullFault,
        }
    }

    /// Register a fresh, inactive thread and return its index.
    pub fn create_thread(&mut self) -> (tid: usize)
        requires
            old(self)@.wf(),
        ensures
            final(self)@ == (KernelView { threads: old(self)@.threads.push(initial_tcb()), ..old(self)@ }),
            tid == old(self)@.threads.len(),
            final(self)@.valid_tid(tid),
            final(self)@.wf(),
    {
        let tid = self.threads.len();
        self.threads.push(tcb_t::new());
        tid
    }

    /// Make the named thread the current one.
    pub fn set_current_thread(&mut self, tid: usize)
        requires
            old(self)@.wf(),
            old(self)@.valid_tid(tid),
        ensures
            final(self)@ == (KernelView { cur_thread: tid, ..old(self)@ }),
            final(self)@.wf(),
    {
        self.cur_thread = tid;
    }

    /// Set a thread's execution state.
    pub fn set_thread_state(&mut self, tid: usize, state: ThreadState)
        requires
            old(self)@.valid_tid(tid),
        ensures
            final(self)@ == old(self)@.with_thread_state(tid, state),
            old(self)@.wf() ==> final(self)@.wf(),
    {
        let mut t = self.threads[tid];
        t.state = state;
        self.threads[tid] = t;
    }

    /// Write one architecture register of a thread.
    pub fn set_register(&mut self, tid: usize, reg: ArchReg, value: usize)
        requires
            old(self)@.valid_tid(tid),
        ensures
            final(self)@ == old(self)@.with_register(tid, reg, value),
            old(self)@.wf() ==> final(self)@.wf(),
    {
        let mut t = self.threads[tid];
        match reg {
            ArchReg::Badge => {
                t.badge = value;
            },
            ArchReg::FaultIP => {
                t.fault_ip = value;
            },
        }
        self.threads[tid] = t;
    }

    /// Read one architecture register of a thread.
    pub fn get_register(&self, tid: usize, reg: ArchReg) -> (r: usize)
        requires
            self@.valid_tid(tid),
        ensures
            r == (match reg {
                ArchReg::Badge => self@.threads[tid as int].badge,
                ArchReg::FaultIP => self@.threads[tid as int].fault_ip,
            }),
    {
        match reg {
            ArchReg::Badge => self.threads[tid].badge,
            ArchReg::FaultIP => self.threads[tid].fault_ip,
        }
    }

    /// Cancel a thread's pending receive: the thread forgets the object it
    /// was blocked on. (Unlinking from that object's queue is the concern of
    /// the endpoint code, outside this core.)
    pub fn cancel_ipc(&mut self, tid: usize)
        requires
            old(self)@.valid_tid(tid),
        ensures
            final(self)@ == old(self)@.with_cancelled_ipc(tid),
            old(self)@.wf() ==> final(self)@.wf(),
    {
        let mut t = self.threads[tid];
        t.blocking_object = 0;
        self.threads[tid] = t;
    }

    /// Record which object a thread is blocked on (0 = none).
    pub fn set_blocking_object(&mut self, tid: usize, obj: usize)
        requires
            old(self)@.valid_tid(tid),
        ensures
            final(self)@ == old(self)@.with_blocking_object(tid, obj),
            old(self)@.wf() ==> final(self)@.wf(),
    {
        let mut t = self.threads[tid];
        t.blocking_object = obj;
        self.threads[tid] = t;
    }

    /// Make a thread forget its notification binding (the thread-side half
    /// of unbinding a notification).
    pub fn unbind_notification(&mut self, tid: usize)
        requires
            old(self)@.valid_tid(tid),
        ensures
            final(self)@ == old(self)@.with_unbound_notification(tid),
            old(self)@.wf() ==> final(self)@.wf(),
    {
        let mut t = self.threads[tid];
        t.bound_notification = 0;
        self.threads[tid] = t;
    }

    /// Record on a thread which notification is bound to it.
    pub fn bind_notification(&mut self, tid: usize, ntfn_ptr: usize)
        requires
            old(self)@.valid_tid(tid),
        ensures
            final(self)@ == (KernelView {
                threads: old(self)@.threads.update(
                    tid as int,
                    tcb_t { bound_notification: ntfn_ptr, ..old(self)@.threads[tid as int] },
                ),
                ..old(self)@
            }),
            old(self)@.wf() ==> final(self)@.wf(),
    {
        let mut t = self.threads[tid];
        t.bound_notification = ntfn_ptr;
        self.threads[tid] = t;
    }

    /// Append a thread to the scheduler's ready queue.
    pub fn sched_enqueue(&mut self, tid: usize)
        requires
            old(self)@.valid_tid(tid),
        ensures
            final(self)@ == old(self)@.enqueued(tid),
            old(self)@.wf() ==> final(self)@.wf(),
    {
        self.ready_queue.push(tid);
    }

    /// Demand a full scheduling decision; a pending direct switch target
    /// falls back into the ready queue.
    pub fn reschedule_required(&mut self)
        requires
            old(self)@.wf(),
        ensures
            final(self)@ == old(self)@.resched(),
            final(self)@.wf(),
    {
        match self.sched_action {
            SchedulerAction::SwitchToThread(t) => {
                self.ready_queue.push(t);
            },
            _ => {},
        }
        self.sched_action = SchedulerAction::ChooseNewThread;
    }

    /// Offer a thread to the scheduler as a possible immediate switch
    /// target. This is a hint, not a guarantee: if another decision is
    /// already pending the thread is merely enqueued.
    pub fn possible_switch_to(&mut self, tid: usize)
        requires
            old(self)@.wf(),
            old(self)@.valid_tid(tid),
        ensures
            final(self)@ == old(self)@.possible_switched(tid),
            final(self)@.wf(),
    {
        if self.sched_action == SchedulerAction::ResumeCurrentThread {
            self.sched_action = SchedulerAction::SwitchToThread(tid);
        } else {
            self.reschedule_required();
            self.ready_queue.push(tid);
        }
    }

    /// Act on the pending scheduling decision and pick the next current
    /// thread.
    pub fn schedule(&mut self)
        requires
            old(self)@.wf(),
        ensures
            final(self)@ == old(self)@.scheduled(),
            final(self)@.wf(),
    {
        match self.sched_action {
            SchedulerAction::ResumeCurrentThread => {},
            SchedulerAction::SwitchToThread(t) => {
                self.cur_thread = t;
                self.sched_action = SchedulerAction::ResumeCurrentThread;
            },
            SchedulerAction::ChooseNewThread => {
                if self.ready_queue.len() > 0 {
                    let t = self.ready_queue.remove(0);
                    self.cur_thread = t;
                } else {
                    self.cur_thread = 0;
                }
                self.sched_action = SchedulerAction::ResumeCurrentThread;
                proof {
                    assert(self@ =~= old(self)@.scheduled());
                }
            },
        }
    }

    /// Activate the current thread: a restarted thread resumes running.
    pub fn activate_thread(&mut self)
        requires
            old(self)@.wf(),
        ensures
            final(self)@ == old(self)@.activated(),
            final(self)@.wf(),
    {
        let cur = self.cur_thread;
        if self.threads[cur].state == ThreadState::ThreadStateRestart {
            let mut t = self.threads[cur];
            t.state = ThreadState::ThreadStateRunning;
            self.threads[cur] = t;
        }
    }
}

} // verus!
