//! The armv9 UART resource: which access modes it accepts and how reads
//! and requests it does not support are answered.
use vstd::prelude::*;
use crate::karnal::{KError, KResourceStatus, KseekFrom, MODE_READ, MODE_WRITE};

verus! {

/// The UART's memory-mapped data register.
pub const UART_DATA_REGISTER: usize = 0x1000_0000;

/// The UART resource (`karnal://device/uart/arm`).
#[derive(Debug, Copy, Clone)]
pub struct ArmUart;

impl ArmUart {
    /// Whether every bit of `mode` is a mode the UART supports: read and
    /// write.
    pub fn supports_mode(&self, mode: u32) -> (r: bool)
        ensures
            r == (mode & (MODE_READ | MODE_WRITE) == mode),
    {
        let supported: u32 = MODE_READ | MODE_WRITE;
        (mode & supported) == mode
    }

    /// Reading: no byte is ever waiting, so every read gives 0 bytes.
    pub fn read(&self, buffer: &mut [u8], offset: u64) -> (r: Result<usize, KError>)
        ensures
            r == Ok::<usize, KError>(0),
            final(buffer)@ == old(buffer)@,
    {
        Ok(0)
    }

    /// The UART takes no control requests.
    pub fn control(&self, request: u64, arg: u64) -> (r: Result<i64, KError>)
        ensures
            r == Err::<i64, KError>(KError::NotSupported),
    {
        Err(KError::NotSupported)
    }

    /// The UART cannot seek.
    pub fn seek(&self, position: KseekFrom) -> (r: Result<u64, KError>)
        ensures
            r == Err::<u64, KError>(KError::NotSupported),
    {
        Err(KError::NotSupported)
    }

    /// The UART reports no status.
    pub fn get_status(&self) -> (r: Result<KResourceStatus, KError>)
        ensures
            r == Err::<KResourceStatus, KError>(KError::NotSupported),
    {
        Err(KError::NotSupported)
    }
}

} // verus!
