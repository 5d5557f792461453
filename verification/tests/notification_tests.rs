use sel4_core::common::seL4_Fault_t;
use sel4_core::notification::{notification_t, tcb_queue_t, NtfnState};
use sel4_core::task::{ArchReg, Kernel, SchedulerAction, ThreadState};

fn kernel_with_threads(n: usize) -> (Kernel, Vec<usize>) {
    let mut k = Kernel::new();
    let mut tids = Vec::new();
    for _ in 0..n {
        tids.push(k.create_thread());
    }
    (k, tids)
}

#[test]
fn new_notification_is_idle() {
    let n = notification_t::new(0x900);
    assert_eq!(n.get_state(), NtfnState::Idle);
    assert_eq!(n.get_ptr(), 0x900);
    assert_eq!(n.bound_tcb, 0);
    assert!(n.get_queue().empty());
}

#[test]
fn send_to_idle_unbound_becomes_active() {
    let (mut k, _) = kernel_with_threads(1);
    let mut n = notification_t::new(0x900);
    n.send_signal(&mut k, 5);
    assert_eq!(n.get_state(), NtfnState::Active);
    assert_eq!(n.msg_identifier, 5);
}

#[test]
fn badges_accumulate_by_or() {
    let (mut k, _) = kernel_with_threads(1);
    let mut n = notification_t::new(0x900);
    n.send_signal(&mut k, 0x1);
    n.send_signal(&mut k, 0x2);
    n.send_signal(&mut k, 0x4);
    assert_eq!(n.get_state(), NtfnState::Active);
    assert_eq!(n.msg_identifier, 0x7);
}

#[test]
fn receive_on_active_consumes_message() {
    let (mut k, tids) = kernel_with_threads(1);
    let t1 = tids[0];
    let mut n = notification_t::new(0x900);
    n.send_signal(&mut k, 0x30);
    n.send_signal(&mut k, 0x05);
    n.receive_signal(&mut k, t1, true);
    assert_eq!(k.get_register(t1, ArchReg::Badge), 0x35);
    assert_eq!(n.get_state(), NtfnState::Idle);
}

#[test]
fn nonblocking_poll_on_idle_yields_zero_badge() {
    let (mut k, tids) = kernel_with_threads(1);
    let t1 = tids[0];
    k.set_register(t1, ArchReg::Badge, 42);
    let mut n = notification_t::new(0x900);
    n.receive_signal(&mut k, t1, false);
    assert_eq!(k.get_register(t1, ArchReg::Badge), 0);
    assert_eq!(n.get_state(), NtfnState::Idle);
    assert!(n.get_queue().empty());
}

#[test]
fn blocking_receive_queues_thread() {
    let (mut k, tids) = kernel_with_threads(1);
    let t1 = tids[0];
    let mut n = notification_t::new(0x900);
    n.receive_signal(&mut k, t1, true);
    assert_eq!(n.get_state(), NtfnState::Waiting);
    assert_eq!(n.get_queue().head(), t1);
    assert_eq!(n.get_queue().tail(), t1);
    assert_eq!(k.threads[t1].state, ThreadState::ThreadStateBlockedOnNotification);
    assert_eq!(k.threads[t1].blocking_object, 0x900);
}

#[test]
fn fifo_ordering_of_waiters() {
    let (mut k, tids) = kernel_with_threads(3);
    let (t1, t2, t3) = (tids[0], tids[1], tids[2]);
    let mut n = notification_t::new(0x900);
    n.receive_signal(&mut k, t1, true);
    n.receive_signal(&mut k, t2, true);
    n.receive_signal(&mut k, t3, true);
    assert_eq!(n.get_queue().tids, vec![t1, t2, t3]);

    n.send_signal(&mut k, 10);
    assert_eq!(k.threads[t1].state, ThreadState::ThreadStateRunning);
    assert_eq!(k.get_register(t1, ArchReg::Badge), 10);
    assert_eq!(k.sched_action, SchedulerAction::SwitchToThread(t1));

    n.send_signal(&mut k, 20);
    n.send_signal(&mut k, 30);
    assert_eq!(k.get_register(t2, ArchReg::Badge), 20);
    assert_eq!(k.get_register(t3, ArchReg::Badge), 30);
    assert_eq!(n.get_state(), NtfnState::Idle);

    // All three are runnable; the scheduler picks them up in arrival order.
    assert_eq!(k.ready_queue, vec![t1, t2, t3]);
    k.schedule();
    assert_eq!(k.cur_thread, t1);
    k.reschedule_required();
    k.schedule();
    assert_eq!(k.cur_thread, t2);
    k.reschedule_required();
    k.schedule();
    assert_eq!(k.cur_thread, t3);
}

#[test]
fn send_to_waiting_empties_queue_and_goes_idle() {
    let (mut k, tids) = kernel_with_threads(1);
    let t1 = tids[0];
    let mut n = notification_t::new(0x900);
    n.receive_signal(&mut k, t1, true);
    n.send_signal(&mut k, 3);
    assert_eq!(n.get_state(), NtfnState::Idle);
    assert!(n.get_queue().empty());
}

#[test]
fn cancel_signal_removes_from_middle() {
    let (mut k, tids) = kernel_with_threads(3);
    let (t1, t2, t3) = (tids[0], tids[1], tids[2]);
    let mut n = notification_t::new(0x900);
    n.receive_signal(&mut k, t1, true);
    n.receive_signal(&mut k, t2, true);
    n.receive_signal(&mut k, t3, true);
    n.cancel_signal(&mut k, t2);
    assert_eq!(n.get_queue().tids, vec![t1, t3]);
    assert_eq!(n.get_state(), NtfnState::Waiting);
    assert_eq!(k.threads[t2].state, ThreadState::ThreadStateInactive);
}

#[test]
fn cancel_signal_of_last_waiter_goes_idle() {
    let (mut k, tids) = kernel_with_threads(1);
    let t1 = tids[0];
    let mut n = notification_t::new(0x900);
    n.receive_signal(&mut k, t1, true);
    n.cancel_signal(&mut k, t1);
    assert_eq!(n.get_state(), NtfnState::Idle);
    assert!(n.get_queue().empty());
    assert_eq!(k.threads[t1].state, ThreadState::ThreadStateInactive);
}

#[test]
fn cancel_all_signals_restarts_every_waiter_once() {
    let (mut k, tids) = kernel_with_threads(3);
    let (t1, t2, t3) = (tids[0], tids[1], tids[2]);
    let mut n = notification_t::new(0x900);
    n.receive_signal(&mut k, t1, true);
    n.receive_signal(&mut k, t2, true);
    n.receive_signal(&mut k, t3, true);
    n.cacncel_all_signal(&mut k);
    assert_eq!(n.get_state(), NtfnState::Idle);
    assert!(n.get_queue().empty());
    for &t in &[t1, t2, t3] {
        assert_eq!(k.threads[t].state, ThreadState::ThreadStateRestart);
    }
    // Each thread was requeued exactly once, in queue order, and a single
    // full scheduling decision was demanded for the whole batch.
    assert_eq!(k.ready_queue, vec![t1, t2, t3]);
    assert_eq!(k.sched_action, SchedulerAction::ChooseNewThread);
}

#[test]
fn cancel_all_signals_on_idle_is_noop() {
    let (mut k, _) = kernel_with_threads(1);
    let mut n = notification_t::new(0x900);
    n.send_signal(&mut k, 9);
    n.cacncel_all_signal(&mut k);
    assert_eq!(n.get_state(), NtfnState::Active);
    assert_eq!(n.msg_identifier, 9);
    assert!(k.ready_queue.is_empty());
}

#[test]
fn bind_and_safe_unbind_clear_both_sides() {
    let (mut k, tids) = kernel_with_threads(1);
    let t1 = tids[0];
    let mut n = notification_t::new(0x900);
    n.bind_tcb(t1);
    k.bind_notification(t1, n.get_ptr());
    assert_eq!(n.bound_tcb, t1);
    assert_eq!(k.threads[t1].bound_notification, 0x900);
    n.safe_unbind_tcb(&mut k);
    assert_eq!(n.bound_tcb, 0);
    assert_eq!(k.threads[t1].bound_notification, 0);
}

#[test]
fn unbind_tcb_clears_only_notification_side() {
    let (mut k, tids) = kernel_with_threads(1);
    let t1 = tids[0];
    let mut n = notification_t::new(0x900);
    n.bind_tcb(t1);
    k.bind_notification(t1, n.get_ptr());
    n.unbind_tcb();
    assert_eq!(n.bound_tcb, 0);
    assert_eq!(k.threads[t1].bound_notification, 0x900);
}

#[test]
fn send_to_idle_with_bound_receiver_takes_fast_path() {
    let (mut k, tids) = kernel_with_threads(1);
    let t1 = tids[0];
    let mut n = notification_t::new(0x900);
    n.bind_tcb(t1);
    k.set_thread_state(t1, ThreadState::ThreadStateBlockedOnReceive);
    k.set_blocking_object(t1, 0x5000);
    n.send_signal(&mut k, 0x11);
    // The pending receive is cancelled and the badge goes straight to the
    // thread; the notification stays idle.
    assert_eq!(n.get_state(), NtfnState::Idle);
    assert_eq!(k.threads[t1].state, ThreadState::ThreadStateRunning);
    assert_eq!(k.get_register(t1, ArchReg::Badge), 0x11);
    assert_eq!(k.threads[t1].blocking_object, 0);
    assert_eq!(k.sched_action, SchedulerAction::SwitchToThread(t1));
}

#[test]
fn send_to_idle_with_bound_thread_not_receiving_becomes_active() {
    let (mut k, tids) = kernel_with_threads(1);
    let t1 = tids[0];
    let mut n = notification_t::new(0x900);
    n.bind_tcb(t1);
    k.set_thread_state(t1, ThreadState::ThreadStateBlockedOnNotification);
    n.send_signal(&mut k, 0x11);
    assert_eq!(n.get_state(), NtfnState::Active);
    assert_eq!(n.msg_identifier, 0x11);
    assert_eq!(k.threads[t1].state, ThreadState::ThreadStateBlockedOnNotification);
}

#[test]
fn active_overwrites_message() {
    let (mut k, _) = kernel_with_threads(1);
    let mut n = notification_t::new(0x900);
    n.send_signal(&mut k, 0xf0);
    n.active(0x0f);
    assert_eq!(n.get_state(), NtfnState::Active);
    assert_eq!(n.msg_identifier, 0x0f);
}

#[test]
fn get_and_set_queue_copy_contents() {
    let (mut k, tids) = kernel_with_threads(2);
    let mut n = notification_t::new(0x900);
    n.receive_signal(&mut k, tids[0], true);
    n.receive_signal(&mut k, tids[1], true);
    let q = n.get_queue();
    assert_eq!(q.tids, vec![tids[0], tids[1]]);

    let mut m = notification_t::new(0xa00);
    m.set_queue(&q);
    assert_eq!(m.get_queue().tids, vec![tids[0], tids[1]]);

    let empty = tcb_queue_t::new();
    assert_eq!(empty.head(), 0);
    assert_eq!(empty.tail(), 0);
}

#[test]
fn fresh_thread_record_is_inactive() {
    let (k, tids) = kernel_with_threads(1);
    let t = k.threads[tids[0]];
    assert_eq!(t.state, ThreadState::ThreadStateInactive);
    assert_eq!(t.fault, seL4_Fault_t::NullFault);
    assert_eq!(t.bound_notification, 0);
}
