//! The saved register context of a LoongArch task and how a new task's
//! first context is laid out.
use vstd::prelude::*;
use crate::karnal::KError;

verus! {

/// The register that holds the return address (`ra`).
pub const RA_REGISTER: usize = 1;
/// The register that holds the stack pointer (`sp`).
pub const SP_REGISTER: usize = 3;
/// The register that holds the first argument (`a0`).
pub const ARG0_REGISTER: usize = 4;

/// CRMD privilege-level bits of user mode (PLV3).
pub const LOONGARCH_CRMD_USER_MODE_BITS: u64 = 0b11;
/// CRMD privilege-level bits of kernel mode (PLV0).
pub const LOONGARCH_CRMD_KERNEL_MODE_BITS: u64 = 0;
/// The CRMD global interrupt-enable bit.
pub const LOONGARCH_CRMD_INTERRUPT_ENABLE_BIT: u64 = 0b100;

/// The registers saved when a task is switched out.
#[derive(Debug, Copy, Clone)]
pub struct LoongArchContext {
    /// General registers r0..r31.
    pub gprs: [u64; 32],
    /// The exception return address: where the task resumes.
    pub csr_era: u64,
    /// The current-mode register the task resumes with.
    pub csr_crmd: u64,
}

/// The mode register a new task starts with: its privilege level, with
/// interrupts disabled.
pub open spec fn initial_crmd(is_user: bool) -> u64 {
    if is_user { LOONGARCH_CRMD_USER_MODE_BITS } else { LOONGARCH_CRMD_KERNEL_MODE_BITS }
}

impl LoongArchContext {
    /// Whether this is the first context of a task that starts at
    /// `entry_point` with `stack_top`, gets `arg`, returns into
    /// `exit_handler`, and runs in user mode when `is_user`.
    pub open spec fn is_initial(&self, entry_point: u64, stack_top: u64, arg: u64, is_user: bool, exit_handler: u64) -> bool {
        &&& self.csr_era == entry_point
        &&& self.csr_crmd == initial_crmd(is_user)
        &&& self.gprs@[SP_REGISTER as int] == stack_top
        &&& self.gprs@[ARG0_REGISTER as int] == arg
        &&& self.gprs@[RA_REGISTER as int] == exit_handler
        &&& forall|i: int| 0 <= i < 32 && i != 1 && i != 3 && i != 4 ==> #[trigger] self.gprs@[i] == 0
    }

    /// The first context of a task: it resumes at `entry_point` on
    /// `stack_top` with `arg` in `a0`, returns into `exit_handler` when its
    /// entry function returns, and runs at user privilege when `is_user`,
    /// with interrupts disabled.
    pub fn create_initial_context(entry_point: u64, stack_top: u64, arg: u64, is_user: bool, exit_handler: u64) -> (r: Self)
        ensures
            r.is_initial(entry_point, stack_top, arg, is_user, exit_handler),
            r.csr_era == entry_point,
            r.gprs@[3] == stack_top,
            r.gprs@[4] == arg,
            r.gprs@[1] == exit_handler,
            is_user ==> r.csr_crmd == 0b11,
            !is_user ==> r.csr_crmd == 0,
    {
        let mut context = LoongArchContext { gprs: [0u64; 32], csr_era: entry_point, csr_crmd: 0 };
        context.gprs[SP_REGISTER] = stack_top;
        context.gprs[ARG0_REGISTER] = arg;
        context.gprs[RA_REGISTER] = exit_handler;
        if is_user {
            context.csr_crmd = context.csr_crmd | LOONGARCH_CRMD_USER_MODE_BITS;
        } else {
            context.csr_crmd = context.csr_crmd | LOONGARCH_CRMD_KERNEL_MODE_BITS;
        }
        context.csr_crmd = context.csr_crmd & !LOONGARCH_CRMD_INTERRUPT_ENABLE_BIT;
        assert(0u64 | 3u64 == 3u64 && 3u64 & !4u64 == 3u64 && 0u64 | 0u64 == 0u64 && 0u64 & !4u64 == 0u64)
            by (bit_vector);
        context
    }
}

/// The first context of a task whose stack occupies `stack_size` bytes from
/// `stack_base`; `InvalidArgument` when the stack's end overflows the
/// address space.
pub fn arch_create_task_context(entry_point: u64, stack_base: u64, stack_size: usize, arg: u64, is_user: bool,
    exit_handler: u64) -> (r: Result<LoongArchContext, KError>)
    ensures
        stack_base + stack_size > u64::MAX ==> r == Err::<LoongArchContext, KError>(KError::InvalidArgument),
        stack_base + stack_size <= u64::MAX ==> (r matches Ok(c)
            && c.is_initial(entry_point, (stack_base + stack_size) as u64, arg, is_user, exit_handler)),
{
    match stack_base.checked_add(stack_size as u64) {
        Some(stack_top) => Ok(LoongArchContext::create_initial_context(entry_point, stack_top, arg, is_user, exit_handler)),
        None => Err(KError::InvalidArgument),
    }
}

} // verus!
