//! Synchronous exceptions taken from EL0 on armv9, classified by the
//! exception class of ESR_EL1.
use vstd::prelude::*;

verus! {

/// The registers saved on entry from EL0.
#[derive(Debug, Copy, Clone)]
pub struct TrapFrame {
    /// x0..x30.
    pub x: [u64; 31],
    /// The user stack pointer.
    pub sp_el0: u64,
    /// The return address.
    pub elr_el1: u64,
    /// The saved program status.
    pub spsr_el1: u64,
}

/// The exception class field (bits 26..31) of a syndrome value.
pub open spec fn esr_class(esr: u64) -> u64 {
    (esr >> 26u64) & 0x3Fu64
}

/// The exception class of syndrome `esr`.
pub fn exception_class(esr: u64) -> (r: u64)
    ensures
        r == esr_class(esr),
{
    (esr >> 26u64) & 0x3F
}

/// Exception class of an SVC from AArch64.
pub const EC_SVC64: u64 = 0b010101;
/// Exception class of an instruction abort from a lower level.
pub const EC_INSTRUCTION_ABORT_LOWER: u64 = 0b100000;
/// Exception class of an instruction abort from the same level.
pub const EC_INSTRUCTION_ABORT_SAME: u64 = 0b100001;
/// Exception class of a data abort from a lower level, as this handler
/// numbers it.
pub const EC_DATA_ABORT_LOWER: u64 = 0b100010;
/// Exception class of a data abort from the same level, as this handler
/// numbers it.
pub const EC_DATA_ABORT_SAME: u64 = 0b100011;

/// What the kernel does with a synchronous exception from EL0.
#[derive(Debug, Copy, Clone, PartialEq, Eq)]
pub enum SyncAction {
    /// Run system call `number` (x8) with `args` (x0..x4), then
    /// `complete_svc`.
    Syscall { number: u64, args: (u64, u64, u64, u64, u64) },
    /// Stop: the user instruction fetch faulted.
    InstructionAbort { esr: u64, elr: u64 },
    /// Stop: the user data access faulted.
    DataAbort { esr: u64, elr: u64 },
    /// An abort from the kernel's own level, left to its own handler:
    /// nothing is done here.
    SameLevelAbort,
    /// Stop: an exception class nobody handles.
    Unknown { esr: u64, elr: u64 },
}

/// What the kernel does with the synchronous exception of syndrome `esr`
/// saved in `tf`.
pub open spec fn sync_action(tf: TrapFrame, esr: u64) -> SyncAction {
    let ec = esr_class(esr);
    if ec == EC_SVC64 {
        SyncAction::Syscall { number: tf.x@[8], args: (tf.x@[0], tf.x@[1], tf.x@[2], tf.x@[3], tf.x@[4]) }
    } else if ec == EC_INSTRUCTION_ABORT_LOWER {
        SyncAction::InstructionAbort { esr, elr: tf.elr_el1 }
    } else if ec == EC_DATA_ABORT_LOWER {
        SyncAction::DataAbort { esr, elr: tf.elr_el1 }
    } else if ec == EC_INSTRUCTION_ABORT_SAME || ec == EC_DATA_ABORT_SAME {
        SyncAction::SameLevelAbort
    } else {
        SyncAction::Unknown { esr, elr: tf.elr_el1 }
    }
}

/// An SVC64 from EL0 is the system call numbered by x8 with the arguments
/// x0..x4; a lower-level instruction or data abort stops with the syndrome
/// and the return address; an abort of the kernel's own level is left to
/// its handler.
pub proof fn lemma_sync_classes(tf: TrapFrame, esr: u64)
    ensures
        esr_class(esr) == 0b010101 ==> sync_action(tf, esr) == (SyncAction::Syscall {
            number: tf.x@[8], args: (tf.x@[0], tf.x@[1], tf.x@[2], tf.x@[3], tf.x@[4]) }),
        esr_class(esr) == 0b100000 ==> sync_action(tf, esr) == (SyncAction::InstructionAbort { esr, elr: tf.elr_el1 }),
        esr_class(esr) == 0b100010 ==> sync_action(tf, esr) == (SyncAction::DataAbort { esr, elr: tf.elr_el1 }),
        (esr_class(esr) == 0b100001 || esr_class(esr) == 0b100011) ==> sync_action(tf, esr) == SyncAction::SameLevelAbort,
{
}

/// Decides what to do with a synchronous exception from EL0 with syndrome
/// `esr_el1_val`.
pub fn handle_sync_exception_from_el0(tf: &TrapFrame, esr_el1_val: u64) -> (r: SyncAction)
    ensures
        r == sync_action(*tf, esr_el1_val),
        esr_class(esr_el1_val) == 0b010101 ==> r == (SyncAction::Syscall {
            number: tf.x@[8], args: (tf.x@[0], tf.x@[1], tf.x@[2], tf.x@[3], tf.x@[4]) }),
        esr_class(esr_el1_val) == 0b100000 ==> r == (SyncAction::InstructionAbort { esr: esr_el1_val, elr: tf.elr_el1 }),
        esr_class(esr_el1_val) == 0b100010 ==> r == (SyncAction::DataAbort { esr: esr_el1_val, elr: tf.elr_el1 }),
{
    proof { lemma_sync_classes(*tf, esr_el1_val); }
    let ec = exception_class(esr_el1_val);
    if ec == EC_SVC64 {
        handle_svc_exception(tf)
    } else if ec == EC_INSTRUCTION_ABORT_LOWER {
        SyncAction::InstructionAbort { esr: esr_el1_val, elr: tf.elr_el1 }
    } else if ec == EC_DATA_ABORT_LOWER {
        SyncAction::DataAbort { esr: esr_el1_val, elr: tf.elr_el1 }
    } else if ec == EC_INSTRUCTION_ABORT_SAME || ec == EC_DATA_ABORT_SAME {
        SyncAction::SameLevelAbort
    } else {
        SyncAction::Unknown { esr: esr_el1_val, elr: tf.elr_el1 }
    }
}

/// The system call an SVC asks for: its number in x8, its arguments in
/// x0..x4.
pub fn handle_svc_exception(tf: &TrapFrame) -> (r: SyncAction)
    ensures
        r == (SyncAction::Syscall { number: tf.x@[8], args: (tf.x@[0], tf.x@[1], tf.x@[2], tf.x@[3], tf.x@[4]) }),
{
    SyncAction::Syscall { number: tf.x[8], args: (tf.x[0], tf.x[1], tf.x[2], tf.x[3], tf.x[4]) }
}

/// Stores a system call's `result` in x0; every other register is kept.
pub fn complete_svc(tf: &mut TrapFrame, result: i64)
    ensures
        final(tf).x@ == old(tf).x@.update(0, result as u64),
        final(tf).sp_el0 == old(tf).sp_el0,
        final(tf).elr_el1 == old(tf).elr_el1,
        final(tf).spsr_el1 == old(tf).spsr_el1,
{
    tf.x[0] = result as u64;
}

/// The fault status code (bits 0..5) of a syndrome value.
pub fn fault_status_code(esr: u64) -> (r: u64)
    ensures
        r == esr & 0x3F,
{
    esr & 0x3F
}

} // verus!
