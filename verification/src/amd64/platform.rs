//! The amd64 system-call entry: where the request's number and arguments
//! are found in the saved registers and where the result goes.
use vstd::prelude::*;

verus! {

/// The registers the system-call entry saves.
#[derive(Debug, Copy, Clone, PartialEq, Eq, Structural)]
pub struct TrapFrame {
    pub r15: u64,
    pub r14: u64,
    pub r13: u64,
    pub r12: u64,
    pub r11: u64,
    pub r10: u64,
    pub r9: u64,
    pub r8: u64,
    pub rsi: u64,
    pub rdi: u64,
    pub rbp: u64,
    pub rbx: u64,
    pub rdx: u64,
    /// The system-call number on entry, the result on return.
    pub rax: u64,
}

/// A system call as the kernel API receives it.
#[derive(Debug, Copy, Clone, PartialEq, Eq, Structural)]
pub struct SyscallRequest {
    pub number: u64,
    pub arg1: u64,
    pub arg2: u64,
    pub arg3: u64,
    pub arg4: u64,
    pub arg5: u64,
}

/// The system call saved in `frame`: the number in `rax`, the arguments in
/// `rdi`, `rsi`, `rdx`, `r10`, `r8`.
pub fn x86_64_syscall_handler(frame: &TrapFrame) -> (r: SyscallRequest)
    ensures
        r == (SyscallRequest { number: frame.rax, arg1: frame.rdi, arg2: frame.rsi, arg3: frame.rdx,
            arg4: frame.r10, arg5: frame.r8 }),
{
    SyscallRequest { number: frame.rax, arg1: frame.rdi, arg2: frame.rsi, arg3: frame.rdx, arg4: frame.r10, arg5: frame.r8 }
}

/// Stores a system call's `result` in `rax`; every other register is kept.
pub fn complete_syscall(frame: &mut TrapFrame, result: i64)
    ensures
        *final(frame) == (TrapFrame { rax: result as u64, ..*old(frame) }),
{
    frame.rax = result as u64;
}

} // verus!
