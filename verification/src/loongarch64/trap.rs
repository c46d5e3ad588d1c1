//! The trap entry of the loongarch64 boot path: the saved trap frame and
//! the dispatch of system calls; any other trap stops the kernel.
use vstd::prelude::*;
use crate::loongarch64::exception::EXCODE_SYSCALL;

verus! {

/// The registers saved by the trap entry.
#[derive(Debug, Copy, Clone)]
pub struct TrapContext {
    /// General registers r0..r31.
    pub regs: [u64; 32],
    /// The exception return address.
    pub csr_era: u64,
    /// The faulting virtual address, where there is one.
    pub csr_badv: u64,
    /// The cause of the trap.
    pub csr_cause: u64,
}

/// What the trap entry does with a trap.
#[derive(Debug, Copy, Clone, PartialEq, Eq)]
pub enum TrapAction {
    /// Run system call `number` with `args`, then `complete_trap_syscall`.
    Syscall { number: u64, args: (u64, u64, u64, u64, u64) },
    /// Stop: an unexpected trap with `cause` at `era`.
    Halt { cause: u64, era: u64 },
}

/// What the trap entry does with the trap saved in `tc`.
pub open spec fn trap_action(tc: TrapContext) -> TrapAction {
    if tc.csr_cause == EXCODE_SYSCALL {
        TrapAction::Syscall {
            number: tc.regs@[7],
            args: (tc.regs@[4], tc.regs@[5], tc.regs@[6], tc.regs@[8], tc.regs@[9]),
        }
    } else {
        TrapAction::Halt { cause: tc.csr_cause, era: tc.csr_era }
    }
}

/// A system-call trap (cause 0x0C) is the call numbered by `r7` with the
/// arguments `r4`, `r5`, `r6`, `r8`, `r9`; every other cause halts with
/// that cause and the return address.
pub proof fn lemma_trap_kinds(tc: TrapContext)
    ensures
        tc.csr_cause == 0x0C ==> trap_action(tc) == (TrapAction::Syscall {
            number: tc.regs@[7], args: (tc.regs@[4], tc.regs@[5], tc.regs@[6], tc.regs@[8], tc.regs@[9]) }),
        tc.csr_cause != 0x0C ==> trap_action(tc) == (TrapAction::Halt { cause: tc.csr_cause, era: tc.csr_era }),
{
}

/// Decides what to do with the trap saved in `trap_context`: a system call
/// takes its number from `r7` and its arguments from `r4`, `r5`, `r6`,
/// `r8`, `r9`; any other cause stops the kernel.
pub fn handle_trap(trap_context: &TrapContext) -> (r: TrapAction)
    ensures
        r == trap_action(*trap_context),
        trap_context.csr_cause == 0x0C ==> r == (TrapAction::Syscall {
            number: trap_context.regs@[7],
            args: (trap_context.regs@[4], trap_context.regs@[5], trap_context.regs@[6], trap_context.regs@[8],
                trap_context.regs@[9]),
        }),
        trap_context.csr_cause != 0x0C ==> r == (TrapAction::Halt {
            cause: trap_context.csr_cause, era: trap_context.csr_era }),
{
    proof { lemma_trap_kinds(*trap_context); }
    let cause = trap_context.csr_cause;
    if cause == EXCODE_SYSCALL {
        TrapAction::Syscall {
            number: trap_context.regs[7],
            args: (trap_context.regs[4], trap_context.regs[5], trap_context.regs[6], trap_context.regs[8],
                trap_context.regs[9]),
        }
    } else {
        TrapAction::Halt { cause, era: trap_context.csr_era }
    }
}

/// Stores a system call's `result` in `r4` and moves the return address
/// past the 4-byte system-call instruction.
pub fn complete_trap_syscall(trap_context: &mut TrapContext, result: i64)
    requires
        old(trap_context).csr_era + 4 <= u64::MAX,
    ensures
        final(trap_context).regs@ == old(trap_context).regs@.update(4, result as u64),
        final(trap_context).csr_era == old(trap_context).csr_era + 4,
        final(trap_context).csr_badv == old(trap_context).csr_badv,
        final(trap_context).csr_cause == old(trap_context).csr_cause,
{
    trap_context.regs[4] = result as u64;
    trap_context.csr_era = trap_context.csr_era + 4;
}

} // verus!
