//! Monotonic time on amd64 from the time-stamp counter, and the timer
//! resource that hands it out.
use vstd::prelude::*;
use crate::karnal::{KError, KResourceStatus, KseekFrom};

verus! {

/// The time-stamp counter frequency assumed until it is calibrated: 1 GHz.
pub const ASSUMED_TSC_FREQ_HZ: u64 = 1_000_000_000;

/// Nanoseconds since the counter started, for `tsc_ticks` counter ticks at
/// `tsc_freq_hz` (0 when the frequency is unknown), cut to 64 bits.
pub open spec fn ticks_to_ns(tsc_ticks: u64, tsc_freq_hz: u64) -> u64 {
    if tsc_freq_hz == 0 {
        0
    } else {
        ((tsc_ticks * 1_000_000_000) / (tsc_freq_hz as int)) as u64
    }
}

/// The nanoseconds of `tsc_ticks` ticks at `tsc_freq_hz` are the whole
/// nanoseconds elapsed, rounded down: `r` nanoseconds take at most that
/// many ticks and one nanosecond more takes more, whenever the frequency is
/// known and the count fits in 64 bits.
pub proof fn lemma_ticks_to_ns_floor(tsc_ticks: u64, tsc_freq_hz: u64)
    requires
        tsc_freq_hz != 0,
        (tsc_ticks as int) * 1_000_000_000 / (tsc_freq_hz as int) <= u64::MAX,
    ensures
        ({
            let r = ticks_to_ns(tsc_ticks, tsc_freq_hz) as int;
            &&& r * tsc_freq_hz <= tsc_ticks * 1_000_000_000
            &&& tsc_ticks * 1_000_000_000 < (r + 1) * tsc_freq_hz
        }),
{
    let n = (tsc_ticks as int) * 1_000_000_000;
    let f = tsc_freq_hz as int;
    let q = n / f;
    assert(q * f <= n && n < (q + 1) * f) by (nonlinear_arith)
        requires f > 0, q == n / f, n >= 0;
    assert(ticks_to_ns(tsc_ticks, tsc_freq_hz) as int == q);
}

/// Converts a time-stamp counter reading to monotonic nanoseconds through a
/// 128-bit intermediate; an uncalibrated (zero) frequency gives 0.
pub fn get_monotonic_time_ns(tsc_ticks: u64, tsc_freq_hz: u64) -> (r: u64)
    ensures
        r == ticks_to_ns(tsc_ticks, tsc_freq_hz),
        tsc_freq_hz == 0 ==> r == 0,
        tsc_freq_hz != 0 && (tsc_ticks as int) * 1_000_000_000 / (tsc_freq_hz as int) <= u64::MAX ==> {
            &&& r * tsc_freq_hz <= tsc_ticks * 1_000_000_000
            &&& tsc_ticks * 1_000_000_000 < (r + 1) * tsc_freq_hz
        },
{
    proof {
        if tsc_freq_hz != 0 && (tsc_ticks as int) * 1_000_000_000 / (tsc_freq_hz as int) <= u64::MAX {
            lemma_ticks_to_ns_floor(tsc_ticks, tsc_freq_hz);
        }
    }
    if tsc_freq_hz == 0 {
        return 0;
    }
    let wide: u128 = tsc_ticks as u128 * 1_000_000_000u128;
    let total_nanos: u128 = wide / (tsc_freq_hz as u128);
    total_nanos as u64
}

/// Byte `i` (0 = least significant) of `value`.
pub open spec fn le_byte(value: u64, i: int) -> u8 {
    ((value >> (8 * i) as u64) & 0xFF) as u8
}

/// The timer resource (`karnal://device/timer`).
#[derive(Debug, Copy, Clone)]
pub struct KernelTimerResource;

impl KernelTimerResource {
    /// Writes the monotonic time `now_ns` into the first eight bytes of
    /// `buffer`, least significant first, and returns 8; a buffer shorter
    /// than eight bytes is `InvalidArgument` and is left unchanged.
    pub fn read(&self, buffer: &mut [u8], offset: u64, now_ns: u64) -> (r: Result<usize, KError>)
        ensures
            old(buffer)@.len() < 8 ==> r == Err::<usize, KError>(KError::InvalidArgument)
                && final(buffer)@ == old(buffer)@,
            old(buffer)@.len() >= 8 ==> r == Ok::<usize, KError>(8)
                && final(buffer)@.len() == old(buffer)@.len()
                && (forall|i: int| 0 <= i < 8 ==> #[trigger] final(buffer)@[i] == le_byte(now_ns, i))
                && (forall|i: int| 8 <= i < old(buffer)@.len() ==> #[trigger] final(buffer)@[i] == old(buffer)@[i]),
    {
        if buffer.len() < 8 {
            return Err(KError::InvalidArgument);
        }
        let mut i: usize = 0;
        while i < 8
            invariant
                i <= 8,
                8 <= buffer@.len(),
                buffer@.len() == old(buffer)@.len(),
                forall|j: int| 0 <= j < i ==> #[trigger] buffer@[j] == le_byte(now_ns, j),
                forall|j: int| 8 <= j < buffer@.len() ==> #[trigger] buffer@[j] == old(buffer)@[j],
            decreases 8 - i,
        {
            let shift: u64 = 8 * (i as u64);
            buffer[i] = ((now_ns >> shift) & 0xFF) as u8;
            i = i + 1;
        }
        Ok(8)
    }

    /// The timer cannot be written.
    pub fn write(&self, buffer: &[u8], offset: u64) -> (r: Result<usize, KError>)
        ensures
            r == Err::<usize, KError>(KError::NotSupported),
    {
        Err(KError::NotSupported)
    }

    /// The timer takes no control requests yet.
    pub fn control(&self, request: u64, arg: u64) -> (r: Result<i64, KError>)
        ensures
            r == Err::<i64, KError>(KError::NotSupported),
    {
        Err(KError::NotSupported)
    }

    /// The timer cannot seek.
    pub fn seek(&self, position: KseekFrom) -> (r: Result<u64, KError>)
        ensures
            r == Err::<u64, KError>(KError::NotSupported),
    {
        Err(KError::NotSupported)
    }

    /// The timer is always ready.
    pub fn get_status(&self) -> (r: Result<KResourceStatus, KError>)
        ensures
            r == Ok::<KResourceStatus, KError>(KResourceStatus::Ready),
    {
        Ok(KResourceStatus::Ready)
    }
}

} // verus!
