//! Architecture support logic of the Karnal64 kernel for amd64, armv9 and
//! loongarch64: page-table encodings and walks, physical frame and virtual
//! range allocation, task bookkeeping, trap decoding and the request
//! protocol that power and security drivers speak with the kernel.
use vstd::prelude::*;

pub mod karnal;
pub mod physmem;
pub mod resource;
pub mod text;
pub mod amd64;
pub mod armv9;
pub mod loongarch64;
