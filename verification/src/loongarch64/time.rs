//! The LoongArch clock resource: reading it yields the stable counter as
//! eight little-endian bytes.
use vstd::prelude::*;
use crate::karnal::{KError, KResourceStatus, KseekFrom, MODE_READ};

verus! {

/// Byte `i` (0 = least significant) of `value`.
pub open spec fn le_byte(value: u64, i: int) -> u8 {
    ((value >> (8 * i) as u64) & 0xFF) as u8
}

/// The clock resource (`karnal://device/clock`).
#[derive(Debug, Copy, Clone)]
pub struct LoongArchTimeSource;

impl LoongArchTimeSource {
    /// Reads the counter value `now` into the first eight bytes of
    /// `buffer`, least significant first, and returns 8. Only offset 0 can
    /// be read, and the buffer must hold eight bytes: else
    /// `InvalidArgument` and the buffer is unchanged.
    pub fn read(&self, buffer: &mut [u8], offset: u64, now: u64) -> (r: Result<usize, KError>)
        ensures
            (offset != 0 || old(buffer)@.len() < 8) ==> r == Err::<usize, KError>(KError::InvalidArgument)
                && final(buffer)@ == old(buffer)@,
            (offset == 0 && old(buffer)@.len() >= 8) ==> r == Ok::<usize, KError>(8)
                && final(buffer)@.len() == old(buffer)@.len()
                && (forall|i: int| 0 <= i < 8 ==> #[trigger] final(buffer)@[i] == le_byte(now, i))
                && (forall|i: int| 8 <= i < old(buffer)@.len() ==> #[trigger] final(buffer)@[i] == old(buffer)@[i]),
    {
        if offset != 0 {
            return Err(KError::InvalidArgument);
        }
        if buffer.len() < 8 {
            return Err(KError::InvalidArgument);
        }
        let mut i: usize = 0;
        while i < 8
            invariant
                i <= 8,
                8 <= buffer@.len(),
                buffer@.len() == old(buffer)@.len(),
                forall|j: int| 0 <= j < i ==> #[trigger] buffer@[j] == le_byte(now, j),
                forall|j: int| 8 <= j < buffer@.len() ==> #[trigger] buffer@[j] == old(buffer)@[j],
            decreases 8 - i,
        {
            let shift: u64 = 8 * (i as u64);
            buffer[i] = ((now >> shift) & 0xFF) as u8;
            i = i + 1;
        }
        Ok(8)
    }

    /// The clock cannot be written.
    pub fn write(&self, buffer: &[u8], offset: u64) -> (r: Result<usize, KError>)
        ensures
            r == Err::<usize, KError>(KError::NotSupported),
    {
        Err(KError::NotSupported)
    }

    /// The clock takes no control requests.
    pub fn control(&self, request: u64, arg: u64) -> (r: Result<i64, KError>)
        ensures
            r == Err::<i64, KError>(KError::NotSupported),
    {
        Err(KError::NotSupported)
    }

    /// The clock cannot seek.
    pub fn seek(&self, position: KseekFrom) -> (r: Result<u64, KError>)
        ensures
            r == Err::<u64, KError>(KError::NotSupported),
    {
        Err(KError::NotSupported)
    }

    /// The clock reports no status.
    pub fn get_status(&self) -> (r: Result<KResourceStatus, KError>)
        ensures
            r == Err::<KResourceStatus, KError>(KError::NotSupported),
    {
        Err(KError::NotSupported)
    }

    /// The clock can be opened for reading only.
    pub fn supports_mode(&self, mode: u32) -> (r: bool)
        ensures
            r == (mode == MODE_READ),
    {
        mode == MODE_READ
    }
}

} // verus!
