//! Decoding of LoongArch exceptions: the saved context of the interrupted
//! task, the exception code, and what the kernel does about each kind of
//! exception. The platform layer runs the system call the decision asks
//! for, then completes it.
use vstd::prelude::*;
pub use crate::karnal::KError;

verus! {

/// Exception code of a system call.
pub const EXCODE_SYSCALL: u64 = 0x0C;
/// Exception code of a page fault on a load.
pub const EXCODE_PAGE_FAULT_LOAD: u64 = 0x01;
/// Exception code of a page fault on a store.
pub const EXCODE_PAGE_FAULT_STORE: u64 = 0x02;
/// Exception code of a TLB refill.
pub const EXCODE_TLB_REFILL: u64 = 0x07;
/// Exception code of a hardware interrupt.
pub const EXCODE_INTERRUPT: u64 = 0x80;

/// Reads the current-mode register. The value the platform layer has not
/// supplied a register read for is zero.
pub fn read_crmd() -> (r: u64)
    ensures
        r == 0,
{
    0
}

/// Reads the exception program counter; zero where the platform layer has
/// supplied no register read.
pub fn read_epc() -> (r: u64)
    ensures
        r == 0,
{
    0
}

/// Reads the bad-address register; zero where the platform layer has
/// supplied no register read.
pub fn read_erbaddr() -> (r: u64)
    ensures
        r == 0,
{
    0
}

/// The exception code held in the low byte of the mode register.
pub open spec fn exception_code(crmd_val: u64) -> u64 {
    crmd_val & 0xFF
}

/// The exception code of a saved mode register.
pub fn extract_exception_code(crmd_val: u64) -> (r: u64)
    ensures
        r == exception_code(crmd_val),
{
    crmd_val & 0xFF
}

/// The registers of the interrupted task, saved by the exception entry.
#[derive(Debug, Copy, Clone)]
pub struct TaskContext {
    pub r1: u64,
    pub r2: u64,
    pub r3: u64,
    pub r4: u64,
    pub r5: u64,
    pub r6: u64,
    pub r7: u64,
    pub r8: u64,
    pub r9: u64,
    pub r10: u64,
    pub r11: u64,
    pub r12: u64,
    pub r13: u64,
    pub r14: u64,
    pub r15: u64,
    pub r16: u64,
    pub r17: u64,
    pub r18: u64,
    pub r19: u64,
    pub r20: u64,
    pub r21: u64,
    pub r22: u64,
    pub r23: u64,
    pub r24: u64,
    pub r25: u64,
    pub r26: u64,
    pub r27: u64,
    pub r28: u64,
    pub r29: u64,
    pub r30: u64,
    pub r31: u64,
    /// Where the exception was raised.
    pub pc: u64,
    /// The mode register at the exception, which holds its code.
    pub crmd: u64,
    /// The faulting address, for a page fault.
    pub erbaddr: u64,
}

impl Default for TaskContext {
    fn default() -> (r: Self)
        ensures
            r.r1 == 0,
            r.r2 == 0,
            r.r3 == 0,
            r.r4 == 0,
            r.r5 == 0,
            r.r6 == 0,
            r.r7 == 0,
            r.r8 == 0,
            r.r9 == 0,
            r.r10 == 0,
            r.r11 == 0,
            r.r12 == 0,
            r.r13 == 0,
            r.r14 == 0,
            r.r15 == 0,
            r.r16 == 0,
            r.r17 == 0,
            r.r18 == 0,
            r.r19 == 0,
            r.r20 == 0,
            r.r21 == 0,
            r.r22 == 0,
            r.r23 == 0,
            r.r24 == 0,
            r.r25 == 0,
            r.r26 == 0,
            r.r27 == 0,
            r.r28 == 0,
            r.r29 == 0,
            r.r30 == 0,
            r.r31 == 0,
            r.pc == 0,
            r.crmd == 0,
            r.erbaddr == 0,
    {
        TaskContext { r1: 0, r2: 0, r3: 0, r4: 0, r5: 0, r6: 0, r7: 0, r8: 0, r9: 0, r10: 0, r11: 0, r12: 0, r13: 0, r14: 0, r15: 0, r16: 0, r17: 0, r18: 0, r19: 0, r20: 0, r21: 0, r22: 0, r23: 0, r24: 0, r25: 0, r26: 0, r27: 0, r28: 0, r29: 0, r30: 0, r31: 0, pc: 0, crmd: 0, erbaddr: 0 }
    }
}

/// Resolves a page fault for the memory manager. No fault is resolvable
/// yet: every one is `BadAddress`.
pub fn handle_page_fault(fault_addr: u64, exception_code: u64, context: &TaskContext) -> (r: Result<(), KError>)
    ensures
        r == Err::<(), KError>(KError::BadAddress),
{
    Err(KError::BadAddress)
}

/// Hands a hardware interrupt to its driver; every interrupt is accepted.
pub fn handle_interrupt(interrupt_cause: u64, context: &TaskContext) -> (r: Result<(), KError>)
    ensures
        r is Ok,
{
    Ok(())
}

/// What the kernel does after an exception.
#[derive(Debug, Copy, Clone, PartialEq, Eq)]
pub enum ExceptionAction {
    /// Run system call `number` with `args`, then `complete_syscall`.
    Syscall { number: u64, args: (u64, u64, u64, u64, u64) },
    /// Return to the interrupted task.
    Resume,
    /// End the current task for `reason`.
    Terminate(KError),
    /// Stop the kernel: nothing handles exception `code`.
    Panic { code: u64 },
}

/// What the kernel does about the exception saved in `tf`.
pub open spec fn exception_action(tf: TaskContext) -> ExceptionAction {
    let code = exception_code(tf.crmd);
    if code == EXCODE_SYSCALL {
        ExceptionAction::Syscall { number: tf.r11, args: (tf.r4, tf.r5, tf.r6, tf.r7, tf.r8) }
    } else if code == EXCODE_PAGE_FAULT_LOAD || code == EXCODE_PAGE_FAULT_STORE || code == EXCODE_TLB_REFILL {
        ExceptionAction::Terminate(KError::BadAddress)
    } else if code == EXCODE_INTERRUPT {
        ExceptionAction::Resume
    } else {
        ExceptionAction::Panic { code }
    }
}

/// Every page fault ends the task with `BadAddress`, whether the access was
/// a load (code 0x01), a store (0x02) or a TLB refill (0x07); a system call
/// (0x0C) takes its number from `r11` and its arguments from `r4`..`r8`; an
/// interrupt (0x80) resumes the task; every other code stops the kernel
/// with that code.
pub proof fn lemma_exception_kinds(tf: TaskContext)
    ensures
        tf.crmd & 0xFF == 0x0C ==> exception_action(tf) == (ExceptionAction::Syscall {
            number: tf.r11, args: (tf.r4, tf.r5, tf.r6, tf.r7, tf.r8) }),
        (tf.crmd & 0xFF == 0x01 || tf.crmd & 0xFF == 0x02 || tf.crmd & 0xFF == 0x07)
            ==> exception_action(tf) == ExceptionAction::Terminate(KError::BadAddress),
        tf.crmd & 0xFF == 0x80 ==> exception_action(tf) == ExceptionAction::Resume,
        !(tf.crmd & 0xFF == 0x0C || tf.crmd & 0xFF == 0x01 || tf.crmd & 0xFF == 0x02
            || tf.crmd & 0xFF == 0x07 || tf.crmd & 0xFF == 0x80)
            ==> exception_action(tf) == (ExceptionAction::Panic { code: tf.crmd & 0xFF }),
{
}

/// Decides what to do about the exception saved in `tf`: a system call
/// takes its number from `r11` (a7) and its arguments from `r4`..`r8`
/// (a0..a4); a page fault the memory manager cannot resolve ends the task;
/// an interrupt goes to its driver and the task resumes; any other code
/// stops the kernel.
pub fn exception_handler(tf: &TaskContext) -> (r: ExceptionAction)
    ensures
        r == exception_action(*tf),
        tf.crmd & 0xFF == 0x0C ==> r == (ExceptionAction::Syscall {
            number: tf.r11, args: (tf.r4, tf.r5, tf.r6, tf.r7, tf.r8) }),
        (tf.crmd & 0xFF == 0x01 || tf.crmd & 0xFF == 0x02 || tf.crmd & 0xFF == 0x07)
            ==> r == ExceptionAction::Terminate(KError::BadAddress),
        tf.crmd & 0xFF == 0x80 ==> r == ExceptionAction::Resume,
        !(tf.crmd & 0xFF == 0x0C || tf.crmd & 0xFF == 0x01 || tf.crmd & 0xFF == 0x02
            || tf.crmd & 0xFF == 0x07 || tf.crmd & 0xFF == 0x80)
            ==> r == (ExceptionAction::Panic { code: tf.crmd & 0xFF }),
{
    proof { lemma_exception_kinds(*tf); }
    let excode = extract_exception_code(tf.crmd);
    if excode == EXCODE_SYSCALL {
        ExceptionAction::Syscall { number: tf.r11, args: (tf.r4, tf.r5, tf.r6, tf.r7, tf.r8) }
    } else if excode == EXCODE_PAGE_FAULT_LOAD || excode == EXCODE_PAGE_FAULT_STORE || excode == EXCODE_TLB_REFILL {
        let fault_addr = tf.erbaddr;
        match handle_page_fault(fault_addr, excode, tf) {
            Ok(()) => ExceptionAction::Resume,
            Err(_) => ExceptionAction::Terminate(KError::BadAddress),
        }
    } else if excode == EXCODE_INTERRUPT {
        let _ = handle_interrupt(excode, tf);
        ExceptionAction::Resume
    } else {
        ExceptionAction::Panic { code: excode }
    }
}

/// Stores a system call's `result` in the return register `r4` (a0) and
/// moves past the 4-byte system-call instruction.
pub fn complete_syscall(tf: &mut TaskContext, result: i64)
    requires
        old(tf).pc + 4 <= u64::MAX,
    ensures
        *final(tf) == (TaskContext { r4: result as u64, pc: (old(tf).pc + 4) as u64, ..*old(tf) }),
{
    tf.r4 = result as u64;
    tf.pc = tf.pc + 4;
}

} // verus!
