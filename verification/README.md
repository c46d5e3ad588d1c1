# karnal_arch

The architecture layer of the Karnal64 kernel for amd64, armv9 (AArch64)
and loongarch64, written in Verus: every function under `src/` carries a
contract that Verus proves.

- `src/physmem.rs` — physical memory as the kernel sees it through its
  identity map; page tables live in it.
- `src/amd64/`, `src/armv9/`, `src/loongarch64/` — per-architecture page
  tables and address arithmetic, frame and virtual-range allocation, task
  bookkeeping and scheduling, trap and exception decoding, interrupt
  descriptors, device-tree discovery, clocks and panic text.
- `src/resource.rs` — the request protocol power and security drivers
  speak with the kernel's resource manager (acquire, write, read back,
  release), as a state machine; the drivers build requests on it.
- `app/` — the platform layer: system calls, I/O ports, memory-mapped
  registers, control registers and the loops that wait on hardware. It
  carries out what the library decides.
- `tests/` — scenarios run against the compiled library.
