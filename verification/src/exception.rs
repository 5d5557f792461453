//! The fault dispatcher: converts a raw hardware trap into a kernel fault
//! record, delivers it to the faulting thread, and threads the result
//! through the scheduler.
//!
//! The raw fault-register values (the fault address register and the fault
//! status register) are read by the architecture's trap entry and handed in
//! as plain words; the dispatcher's whole value is picking the right source
//! per fault kind — the fault address register for a data abort, the
//! faulting thread's saved instruction pointer for a prefetch abort — and
//! packaging a stable fault record.

use vstd::prelude::*;
use crate::common::{exception_t, seL4_Fault_t};
use crate::task::{ArchReg, Kernel, KernelView};

verus! {

/// The trap-vector selector for a data abort.
#[allow(non_upper_case_globals)]
pub const ARMDataAbort: usize = 0;

/// The trap-vector selector for a prefetch (instruction) abort.
#[allow(non_upper_case_globals)]
pub const ARMPrefetchAbort: usize = 1;

/// Deliver the current fault to a thread: the record is parked on the
/// thread's control block and the one-shot mailbox is consumed. (Forwarding
/// the record to the thread's fault handler endpoint is the generic fault
/// path's concern, outside this core.)
pub fn handle_fault(kernel: &mut Kernel, tid: usize)
    requires
        old(kernel)@.valid_tid(tid),
    ensures
        final(kernel)@ == old(kernel)@.delivered(tid),
        old(kernel)@.wf() ==> final(kernel)@.wf(),
{
    let f = kernel.current_fault;
    let mut t = kernel.threads[tid];
    t.fault = f;
    kernel.threads[tid] = t;
    kernel.current_fault = seL4_Fault_t::NullFault;
}

/// Build a user-exception fault record from two architecture-defined words,
/// deliver it to the current thread, then reschedule and activate the next
/// thread (which may differ from the faulting one).
#[allow(non_snake_case)]
pub fn handleUserLevelFault(kernel: &mut Kernel, w_a: usize, w_b: usize) -> (r: exception_t)
    requires
        old(kernel)@.wf(),
        old(kernel)@.valid_tid(old(kernel)@.cur_thread),
    ensures
        final(kernel)@ == old(kernel)@.with_current_fault(
            seL4_Fault_t::UserException { word_a: w_a, word_b: w_b },
        ).delivered(old(kernel)@.cur_thread).scheduled().activated(),
        r == exception_t::EXCEPTION_NONE,
        final(kernel)@.wf(),
{
    kernel.current_fault = seL4_Fault_t::new_user_exception(w_a, w_b);
    let cur = kernel.cur_thread;
    handle_fault(kernel, cur);
    kernel.schedule();
    kernel.activate_thread();
    exception_t::EXCEPTION_NONE
}

/// The fault record a VM-fault trap produces: a data abort reports the
/// fault address register; a prefetch abort reports the faulting thread's
/// saved instruction pointer (prefetch aborts report status but not always
/// a clean address register). Both carry the hardware fault status value.
pub open spec fn vm_fault_record(k: KernelView, type_: usize, far: usize, esr: usize) -> seL4_Fault_t {
    if type_ == ARMDataAbort {
        seL4_Fault_t::VMFault { address: far, fsr: esr, instruction_fault: false }
    } else {
        seL4_Fault_t::VMFault {
            address: k.threads[k.cur_thread as int].fault_ip,
            fsr: esr,
            instruction_fault: true,
        }
    }
}

/// Classify a VM-fault trap and fill the current-fault mailbox with the
/// resulting record. `far` and `esr` are the fault-address and fault-status
/// register values read at trap entry. Any selector other than a data or
/// prefetch abort is a hardware contract violation and is excluded by
/// precondition (the kernel would halt).
pub fn handle_vm_fault(kernel: &mut Kernel, type_: usize, far: usize, esr: usize) -> (r:
    exception_t)
    requires
        old(kernel)@.wf(),
        old(kernel)@.valid_tid(old(kernel)@.cur_thread),
        type_ == ARMDataAbort || type_ == ARMPrefetchAbort,
    ensures
        final(kernel)@ == old(kernel)@.with_current_fault(
            vm_fault_record(old(kernel)@, type_, far, esr),
        ),
        r == exception_t::EXCEPTION_FAULT,
        final(kernel)@.wf(),
{
    if type_ == ARMDataAbort {
        kernel.current_fault = seL4_Fault_t::new_vm_fault(far, esr, false);
        exception_t::EXCEPTION_FAULT
    } else {
        let cur = kernel.cur_thread;
        let pc = kernel.get_register(cur, ArchReg::FaultIP);
        kernel.current_fault = seL4_Fault_t::new_vm_fault(pc, esr, true);
        exception_t::EXCEPTION_FAULT
    }
}

/// Handle a VM-fault trap end to end: classify the trap and build the fault
/// record, deliver it to the current thread, then reschedule and activate
/// the next thread.
#[allow(non_snake_case)]
pub fn handleVMFaultEvent(kernel: &mut Kernel, vm_faultType: usize, far: usize, esr: usize) -> (r:
    exception_t)
    requires
        old(kernel)@.wf(),
        old(kernel)@.valid_tid(old(kernel)@.cur_thread),
        vm_faultType == ARMDataAbort || vm_faultType == ARMPrefetchAbort,
    ensures
        final(kernel)@ == old(kernel)@.with_current_fault(
            vm_fault_record(old(kernel)@, vm_faultType, far, esr),
        ).delivered(old(kernel)@.cur_thread).scheduled().activated(),
        r == exception_t::EXCEPTION_NONE,
        final(kernel)@.wf(),
{
    let status = handle_vm_fault(kernel, vm_faultType, far, esr);
    if status != exception_t::EXCEPTION_NONE {
        let cur = kernel.cur_thread;
        handle_fault(kernel, cur);
    }
    kernel.schedule();
    kernel.activate_thread();
    exception_t::EXCEPTION_NONE
}

} // verus!
