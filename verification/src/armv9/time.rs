//! The armv9 system tick: the count the timer interrupt advances, how a
//! delay is measured in ticks, and the GIC register offsets that route and
//! enable the timer interrupt.
use vstd::prelude::*;

verus! {

/// The timer's interrupt number.
pub const TIMER_INTERRUPT_NUMBER: u32 = 30;
/// The timer reload value: ticks of the counter between interrupts.
pub const TIMER_RELOAD: u64 = 10_000_000;

/// The count after one timer interrupt on `count` (wrapping at the top of
/// the range).
pub open spec fn next_tick(count: u64) -> u64 {
    if count == u64::MAX { 0 } else { (count + 1) as u64 }
}

/// The count after `n` timer interrupts on `count`.
pub open spec fn ticks_after(count: u64, n: nat) -> u64
    decreases n,
{
    if n == 0 { count } else { next_tick(ticks_after(count, (n - 1) as nat)) }
}

/// The tick count never goes down: after `n` timer interrupts, as long as
/// fewer than 2^64 have happened in all, the count has grown by exactly `n`,
/// so a later reading is never below an earlier one.
pub proof fn lemma_ticks_monotonic(count: u64, n: nat)
    requires
        count + n <= u64::MAX,
    ensures
        ticks_after(count, n) == count + n,
        count <= ticks_after(count, n),
    decreases n,
{
    if n > 0 {
        lemma_ticks_monotonic(count, (n - 1) as nat);
    }
}

/// The tick count since boot.
#[derive(Debug, Copy, Clone, PartialEq, Eq)]
pub struct TickCounter {
    pub count: u64,
}

impl TickCounter {
    /// The count at boot: zero.
    pub fn new() -> (r: Self)
        ensures
            r.count == 0,
    {
        TickCounter { count: 0 }
    }

    /// The timer interrupt: one more tick (wrapping, as the atomic counter
    /// does).
    pub fn on_timer_interrupt(&mut self)
        ensures
            final(self).count == next_tick(old(self).count),
    {
        self.count = self.count.wrapping_add(1);
    }
}

/// The ticks since boot.
pub fn ticks(counter: &TickCounter) -> (r: u64)
    ensures
        r == counter.count,
{
    counter.count
}

/// Starts a delay of `ms` ticks at tick count `now`: the tick count it
/// waits for, which `delay_elapsed` compares the running count against.
pub fn delay(now: u64, ms: u64) -> (r: u64)
    requires
        now + ms <= u64::MAX,
    ensures
        r == now + ms,
{
    now + ms
}

/// Whether a delay waiting for `target` is over at tick count `now`.
pub fn delay_elapsed(now: u64, target: u64) -> (r: bool)
    ensures
        r == (now >= target),
{
    now >= target
}

/// The distributor routing register offset of interrupt `id`.
pub fn gicd_irouter_offset(interrupt_id: u32) -> (r: u32)
    requires
        0x8000 + (interrupt_id / 4) * 4 <= u32::MAX,
    ensures
        r == 0x8000 + (interrupt_id / 4) * 4,
{
    0x8000 + (interrupt_id / 4) * 4
}

/// The distributor set-enable register offset of interrupt `id`.
pub fn gicd_isenabler_offset(interrupt_id: u32) -> (r: u32)
    ensures
        r == 0x100 + (interrupt_id / 32) * 4,
{
    0x100 + (interrupt_id / 32) * 4
}

/// The distributor clear-enable register offset of interrupt `id`.
pub fn gicd_icenabler_offset(interrupt_id: u32) -> (r: u32)
    ensures
        r == 0x180 + (interrupt_id / 32) * 4,
{
    0x180 + (interrupt_id / 32) * 4
}

/// The bit of interrupt `id` in its enable register.
pub fn interrupt_enable_mask(interrupt_id: u32) -> (r: u32)
    ensures
        r == 1u32 << (interrupt_id % 32),
{
    1u32 << (interrupt_id % 32)
}

/// The CPU-interface end-of-interrupt register offset.
pub const GICC_EOIR_OFFSET: u32 = 0x10;
/// The CPU-interface control register's enable bit.
pub const GICC_CTLR_ENABLE: u32 = 0x01;

} // verus!
