//! loongarch64 support.
pub mod dtb;
pub mod exception;
pub mod mmu;
pub mod panic;
pub mod platform;
pub mod power;
pub mod security;
pub mod task;
pub mod time;
pub mod trap;
