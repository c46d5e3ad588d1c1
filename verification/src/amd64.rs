//! amd64 (x86_64) support.
pub mod exception;
pub mod io;
pub mod mmu;
pub mod panic;
pub mod platform;
pub mod power;
pub mod security;
pub mod shutdown;
pub mod task;
pub mod time;
