//! Synchronization, address-space-lifecycle, and fault-dispatch core of a
//! capability-based microkernel.
//!
//! Three tightly coupled pieces, each a verified state machine over an
//! explicit kernel context:
//! - the notification object (asynchronous signal/wait between threads),
//! - the ASID directory (which hardware translation roots are alive and
//!   safely revocable),
//! - the fault dispatcher (raw hardware trap to kernel fault record to
//!   reschedule).
//!
//! Hardware collaborators (fault registers, the TLB, the MMU root register)
//! appear as plain values handed in by the trap entry and as an explicit
//! machine-state record; all mutation happens under the kernel's
//! single-execution-context discipline, so every operation is a plain
//! sequential function.

pub mod common;
pub mod task;
pub mod notification;
pub mod asid;
pub mod exception;
