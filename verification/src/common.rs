//! Shared kernel-wide types: operation outcomes, lookup faults, and the
//! fault record built by the fault dispatcher.

use vstd::prelude::*;

verus! {

/// Outcome of a kernel operation, as seen by the trap vector and the
/// capability-invocation dispatcher.
#[allow(non_camel_case_types)]
#[derive(Clone, Copy, PartialEq, Eq, Structural, Debug)]
pub enum exception_t {
    EXCEPTION_NONE,
    EXCEPTION_FAULT,
    EXCEPTION_LOOKUP_FAULT,
}

/// A recoverable lookup fault, surfaced as a tagged result and consumed by
/// the generic capability-fault reporting path (never a kernel panic).
#[allow(non_camel_case_types)]
#[derive(Clone, Copy, PartialEq, Eq, Structural, Debug)]
pub enum lookup_fault_t {
    InvalidRoot,
}

impl lookup_fault_t {
    /// The "ASID root invalid" lookup fault.
    pub fn new_root_invalid() -> (r: lookup_fault_t)
        ensures
            r == lookup_fault_t::InvalidRoot,
    {
        lookup_fault_t::InvalidRoot
    }
}

/// The fault record: tagged data describing why a thread trapped into the
/// kernel. It lives in a single-slot "current fault" mailbox, set immediately
/// before fault delivery and consumed by the delivery step.
#[allow(non_camel_case_types)]
#[derive(Clone, Copy, PartialEq, Eq, Structural, Debug)]
pub enum seL4_Fault_t {
    /// No fault is pending.
    NullFault,
    /// A user-level exception, carrying two architecture-defined words.
    UserException { word_a: usize, word_b: usize },
    /// A virtual-memory fault: the faulting address, the hardware fault
    /// status value, and whether the fault was raised by instruction fetch.
    VMFault { address: usize, fsr: usize, instruction_fault: bool },
}

impl seL4_Fault_t {
    /// Build a user-exception fault record.
    pub fn new_user_exception(word_a: usize, word_b: usize) -> (r: seL4_Fault_t)
        ensures
            r == (seL4_Fault_t::UserException { word_a, word_b }),
    {
        seL4_Fault_t::UserException { word_a, word_b }
    }

    /// Build a virtual-memory fault record.
    pub fn new_vm_fault(address: usize, fsr: usize, instruction_fault: bool) -> (r: seL4_Fault_t)
        ensures
            r == (seL4_Fault_t::VMFault { address, fsr, instruction_fault }),
    {
        seL4_Fault_t::VMFault { address, fsr, instruction_fault }
    }
}

} // verus!
