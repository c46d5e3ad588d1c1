//! The saved register context of an amd64 thread and the layout of a new
//! thread's first context.
use vstd::prelude::*;

verus! {

/// The registers saved when a thread is switched out.
#[derive(Debug, Copy, Clone)]
pub struct ThreadContext {
    /// The callee-saved general registers.
    pub regs: [u64; 7],
    /// Where the thread resumes.
    pub rip: u64,
    /// The thread's stack pointer.
    pub rsp: u64,
    /// The code segment selector.
    pub cs: u64,
    /// The stack segment selector.
    pub ss: u64,
}

/// The first context of a thread: it resumes at `entry_point` with its
/// stack pointer at `stack_top`; every other register, and both selectors,
/// are zero. The argument reaches the entry point through the context
/// switch, not through the context.
pub fn create_initial_context(stack_top: u64, entry_point: u64, arg: u64) -> (r: ThreadContext)
    ensures
        r.rip == entry_point,
        r.rsp == stack_top,
        r.cs == 0,
        r.ss == 0,
        forall|i: int| 0 <= i < 7 ==> #[trigger] r.regs@[i] == 0,
{
    ThreadContext { regs: [0u64; 7], rip: entry_point, rsp: stack_top, cs: 0, ss: 0 }
}

} // verus!
