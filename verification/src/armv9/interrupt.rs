//! The Rust side of the armv9 exception vector: synchronous exceptions
//! from EL0 (system calls and user faults) and from EL1 (kernel faults),
//! classified by the exception class of ESR_EL1.
use vstd::prelude::*;
use crate::armv9::exception::{esr_class, exception_class, EC_SVC64};

verus! {

/// The registers the vector entry saves.
#[derive(Debug, Copy, Clone)]
pub struct TrapFrame {
    /// x0..x30.
    pub x: [u64; 31],
    pub sp_el0: u64,
    pub elr_el1: u64,
    pub spsr_el1: u64,
    /// The exception syndrome.
    pub esr_el1: u64,
    /// The faulting address.
    pub far_el1: u64,
}

/// Whether exception class `ec` is an instruction abort (either level).
pub open spec fn is_instruction_abort(ec: u64) -> bool {
    ec == 0b100000 || ec == 0b100001
}

/// Whether exception class `ec` is a data abort (either level).
pub open spec fn is_data_abort(ec: u64) -> bool {
    ec == 0b100100 || ec == 0b100101
}

/// What the vector does with a synchronous exception.
#[derive(Debug, Copy, Clone, PartialEq, Eq)]
pub enum TrapAction {
    /// Run system call `number` (x8) with `args` (x0..x4), then
    /// `complete_syscall`.
    Syscall { number: u64, args: (u64, u64, u64, u64, u64) },
    /// Halt: an instruction abort at `elr`.
    InstructionAbort { esr: u64, elr: u64 },
    /// Halt: a data abort on `far` at `elr`.
    DataAbort { esr: u64, far: u64, elr: u64 },
    /// Halt: an exception class nobody handles.
    Invalid { ec: u64 },
}

/// What the vector does with a synchronous exception from EL0 saved in
/// `frame`.
pub open spec fn lower_el_action(frame: TrapFrame) -> TrapAction {
    let ec = esr_class(frame.esr_el1);
    if ec == EC_SVC64 {
        TrapAction::Syscall {
            number: frame.x@[8],
            args: (frame.x@[0], frame.x@[1], frame.x@[2], frame.x@[3], frame.x@[4]),
        }
    } else if is_instruction_abort(ec) {
        TrapAction::InstructionAbort { esr: frame.esr_el1, elr: frame.elr_el1 }
    } else if is_data_abort(ec) {
        TrapAction::DataAbort { esr: frame.esr_el1, far: frame.far_el1, elr: frame.elr_el1 }
    } else {
        TrapAction::Invalid { ec }
    }
}

/// What the vector does with a synchronous exception from EL1 saved in
/// `frame`: only faults are expected there.
pub open spec fn current_el_action(frame: TrapFrame) -> TrapAction {
    let ec = esr_class(frame.esr_el1);
    if is_instruction_abort(ec) {
        TrapAction::InstructionAbort { esr: frame.esr_el1, elr: frame.elr_el1 }
    } else if is_data_abort(ec) {
        TrapAction::DataAbort { esr: frame.esr_el1, far: frame.far_el1, elr: frame.elr_el1 }
    } else {
        TrapAction::Invalid { ec }
    }
}

/// From EL0, an SVC64 is the system call numbered by x8 with the arguments
/// x0..x4; an instruction abort (class 0b100000 or 0b100001) halts at the
/// exception return address; a data abort (class 0b100100 or 0b100101)
/// halts with the syndrome, the fault address and the return address.
pub proof fn lemma_lower_el_classes(frame: TrapFrame)
    ensures
        esr_class(frame.esr_el1) == 0b010101 ==> lower_el_action(frame) == (TrapAction::Syscall {
            number: frame.x@[8], args: (frame.x@[0], frame.x@[1], frame.x@[2], frame.x@[3], frame.x@[4]) }),
        (esr_class(frame.esr_el1) == 0b100000 || esr_class(frame.esr_el1) == 0b100001)
            ==> lower_el_action(frame) == (TrapAction::InstructionAbort { esr: frame.esr_el1, elr: frame.elr_el1 }),
        (esr_class(frame.esr_el1) == 0b100100 || esr_class(frame.esr_el1) == 0b100101)
            ==> lower_el_action(frame) == (TrapAction::DataAbort {
                esr: frame.esr_el1, far: frame.far_el1, elr: frame.elr_el1 }),
{
}

/// In the kernel itself, an instruction abort (class 0b100000 or
/// 0b100001) halts at the exception return address and a data abort
/// (class 0b100100 or 0b100101) halts with the syndrome, the fault address
/// and the return address; every other class is invalid there, a system
/// call included.
pub proof fn lemma_current_el_classes(frame: TrapFrame)
    ensures
        (esr_class(frame.esr_el1) == 0b100000 || esr_class(frame.esr_el1) == 0b100001)
            ==> current_el_action(frame) == (TrapAction::InstructionAbort { esr: frame.esr_el1, elr: frame.elr_el1 }),
        (esr_class(frame.esr_el1) == 0b100100 || esr_class(frame.esr_el1) == 0b100101)
            ==> current_el_action(frame) == (TrapAction::DataAbort {
                esr: frame.esr_el1, far: frame.far_el1, elr: frame.elr_el1 }),
        !(esr_class(frame.esr_el1) == 0b100000 || esr_class(frame.esr_el1) == 0b100001
            || esr_class(frame.esr_el1) == 0b100100 || esr_class(frame.esr_el1) == 0b100101)
            ==> current_el_action(frame) == (TrapAction::Invalid { ec: esr_class(frame.esr_el1) }),
{
}

/// Classifies a synchronous exception from EL0: an SVC is a system call,
/// aborts halt the task, anything else is invalid.
pub fn handle_sync_lower_el_aarch64_rust(frame: &TrapFrame) -> (r: TrapAction)
    ensures
        r == lower_el_action(*frame),
        esr_class(frame.esr_el1) == 0b010101 ==> r == (TrapAction::Syscall {
            number: frame.x@[8], args: (frame.x@[0], frame.x@[1], frame.x@[2], frame.x@[3], frame.x@[4]) }),
        (esr_class(frame.esr_el1) == 0b100100 || esr_class(frame.esr_el1) == 0b100101)
            ==> r == (TrapAction::DataAbort { esr: frame.esr_el1, far: frame.far_el1, elr: frame.elr_el1 }),
        (esr_class(frame.esr_el1) == 0b100000 || esr_class(frame.esr_el1) == 0b100001)
            ==> r == (TrapAction::InstructionAbort { esr: frame.esr_el1, elr: frame.elr_el1 }),
{
    proof { lemma_lower_el_classes(*frame); }
    let esr = frame.esr_el1;
    let ec = exception_class(esr);
    if ec == EC_SVC64 {
        TrapAction::Syscall { number: frame.x[8], args: (frame.x[0], frame.x[1], frame.x[2], frame.x[3], frame.x[4]) }
    } else if ec == 0b100000 || ec == 0b100001 {
        TrapAction::InstructionAbort { esr, elr: frame.elr_el1 }
    } else if ec == 0b100100 || ec == 0b100101 {
        TrapAction::DataAbort { esr, far: frame.far_el1, elr: frame.elr_el1 }
    } else {
        TrapAction::Invalid { ec }
    }
}

/// Classifies a synchronous exception taken in the kernel itself.
pub fn handle_sync_curr_el_spx_rust(frame: &TrapFrame) -> (r: TrapAction)
    ensures
        r == current_el_action(*frame),
        (esr_class(frame.esr_el1) == 0b100100 || esr_class(frame.esr_el1) == 0b100101)
            ==> r == (TrapAction::DataAbort { esr: frame.esr_el1, far: frame.far_el1, elr: frame.elr_el1 }),
        (esr_class(frame.esr_el1) == 0b100000 || esr_class(frame.esr_el1) == 0b100001)
            ==> r == (TrapAction::InstructionAbort { esr: frame.esr_el1, elr: frame.elr_el1 }),
{
    proof { lemma_current_el_classes(*frame); }
    let esr = frame.esr_el1;
    let ec = exception_class(esr);
    if ec == 0b100000 || ec == 0b100001 {
        TrapAction::InstructionAbort { esr, elr: frame.elr_el1 }
    } else if ec == 0b100100 || ec == 0b100101 {
        TrapAction::DataAbort { esr, far: frame.far_el1, elr: frame.elr_el1 }
    } else {
        TrapAction::Invalid { ec }
    }
}

/// Stores a system call's `result` in x0; every other register is kept.
pub fn complete_syscall(frame: &mut TrapFrame, result: i64)
    ensures
        final(frame).x@ == old(frame).x@.update(0, result as u64),
        final(frame).sp_el0 == old(frame).sp_el0,
        final(frame).elr_el1 == old(frame).elr_el1,
        final(frame).spsr_el1 == old(frame).spsr_el1,
        final(frame).esr_el1 == old(frame).esr_el1,
        final(frame).far_el1 == old(frame).far_el1,
{
    frame.x[0] = result as u64;
}

} // verus!
