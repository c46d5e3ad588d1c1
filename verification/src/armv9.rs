//! armv9 (AArch64) support.
pub mod dtb;
pub mod exception;
pub mod interrupt;
pub mod io;
pub mod mmu;
pub mod panic;
pub mod security;
pub mod shutdown;
pub mod task;
pub mod time;
