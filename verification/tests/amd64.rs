use karnal_arch::amd64::exception::{
    common_interrupt_handler, init, IdtEntry, IdtHandlers, InterruptAction, InterruptDescriptorTable, PageFaultErrorCode,
};
use karnal_arch::amd64::io::{PortAccess, SerialPort, COM1_PORT};
use karnal_arch::amd64::mmu::{
    map_mmu_error, memory_allocate, shared_mem_unmap, FrameAllocator, MmuError, PageFlags, PageTableEntry,
    PlaceholderFrameAllocator, X86MmuManager,
};
use karnal_arch::amd64::panic::serial_bytes;
use karnal_arch::amd64::platform::{complete_syscall, x86_64_syscall_handler, SyscallRequest, TrapFrame};
use karnal_arch::amd64::task::create_initial_context;
use karnal_arch::amd64::time::{get_monotonic_time_ns, KernelTimerResource, ASSUMED_TSC_FREQ_HZ};
use karnal_arch::karnal::{KError, KResourceStatus};
use karnal_arch::physmem::PhysMemory;

/// Hands out `left` frames upward from `next`.
struct Frames {
    next: u64,
    left: u64,
}

impl FrameAllocator for Frames {
    fn frame_at(&self, k: u64) -> Option<u64> {
        if k < self.left { Some(self.next + k * 0x1000) } else { None }
    }

    fn allocate_frame(&mut self) -> Option<u64> {
        if self.left == 0 {
            return None;
        }
        let f = self.next;
        self.next += 0x1000;
        self.left -= 1;
        Some(f)
    }

    fn deallocate_frame(&mut self, _frame_addr: u64) {}
}

const ROOT: u64 = 0x1000;

fn setup() -> (PhysMemory, Frames) {
    (PhysMemory::new(0, 64).unwrap(), Frames { next: 0x2000, left: 62 })
}

fn rw() -> PageFlags {
    PageFlags::writable()
}

#[test]
fn page_flags() {
    let f = PageFlags::present().with(PageFlags::writable()).with(PageFlags::no_execute());
    assert_eq!(f.raw(), 0x8000_0000_0000_0003);
    assert!(f.contains(PageFlags::writable()));
    assert!(!f.contains(PageFlags::user_accessible()));
    assert_eq!(f.without(PageFlags::writable()).raw(), 0x8000_0000_0000_0001);
    assert_eq!(PageFlags::new(0x180).raw(), 0x180);
    assert!(PageFlags::new(0x180).contains(PageFlags::global()));
}

#[test]
fn page_table_entries() {
    let e = PageTableEntry::new(0x20_0000, PageFlags::present().with(PageFlags::huge_page()));
    assert!(e.is_present());
    assert!(e.is_huge_page());
    assert_eq!(e.physical_address(0x1000), 0x20_0000);
    assert_eq!(e.physical_address(0x20_0000), 0x20_0000);
    assert_eq!(e.physical_address(0x4000_0000), 0);
    assert_eq!(e.physical_address(12345), 0);
    let plain = PageTableEntry::new(0x7000_5000, PageFlags::present());
    assert_eq!(plain.physical_address(0x20_0000), 0);
    assert_eq!(plain.flags().raw(), 0x7000_5001);
    let mut x = PageTableEntry::empty();
    assert!(!x.is_present());
    x.set_entry(0x3000, PageFlags::present());
    assert_eq!(x.raw(), 0x3001);
    x.set(0x55);
    assert_eq!(x.0, 0x55);
    x.clear();
    assert_eq!(x.raw(), 0);
}

#[test]
fn map_then_translate() {
    let (mut mem, mut frames) = setup();
    let mmu = X86MmuManager::new();
    let va = 0x0000_7F12_3456_7000;
    assert_eq!(mmu.translate_address(&mem, ROOT, va), Err(MmuError::NotMapped));
    assert_eq!(mmu.map_page(&mut mem, ROOT, va, 0x1_2345_6000, rw(), &mut frames), Ok(()));
    assert_eq!(frames.left, 59);
    assert_eq!(mmu.translate_address(&mem, ROOT, va + 0x123), Ok(0x1_2345_6123));
    assert_eq!(mmu.translate_address(&mem, ROOT, va + 0x1000), Err(MmuError::NotMapped));
}

#[test]
fn mapping_twice_is_refused_without_change() {
    let (mut mem, mut frames) = setup();
    let mmu = X86MmuManager::new();
    mmu.map_page(&mut mem, ROOT, 0x40_0000, 0x9000, rw(), &mut frames).unwrap();
    let before = mem.words.clone();
    assert_eq!(mmu.map_page(&mut mem, ROOT, 0x40_0000, 0xA000, rw(), &mut frames), Err(MmuError::AlreadyMapped));
    assert_eq!(mem.words, before);
    assert_eq!(mmu.translate_address(&mem, ROOT, 0x40_0008), Ok(0x9008));
}

#[test]
fn unaligned_addresses_are_invalid() {
    let (mut mem, mut frames) = setup();
    let mmu = X86MmuManager::new();
    assert_eq!(mmu.map_page(&mut mem, ROOT, 0x40_0001, 0x9000, rw(), &mut frames), Err(MmuError::InvalidArgument));
    assert_eq!(mmu.map_page(&mut mem, ROOT, 0x40_0000, 0x9010, rw(), &mut frames), Err(MmuError::InvalidArgument));
    assert_eq!(mmu.unmap_page(&mut mem, ROOT, 0x40_0004, &mut frames), Err(MmuError::InvalidArgument));
}

#[test]
fn unmap_leaves_address_unmapped() {
    let (mut mem, mut frames) = setup();
    let mmu = X86MmuManager::new();
    assert_eq!(mmu.unmap_page(&mut mem, ROOT, 0x40_0000, &mut frames), Err(MmuError::MissingPageTable));
    mmu.map_page(&mut mem, ROOT, 0x40_0000, 0x9000, rw(), &mut frames).unwrap();
    mmu.map_page(&mut mem, ROOT, 0x40_1000, 0xB000, rw(), &mut frames).unwrap();
    assert_eq!(mmu.unmap_page(&mut mem, ROOT, 0x40_0000, &mut frames), Ok(()));
    assert_eq!(mmu.translate_address(&mem, ROOT, 0x40_0000), Err(MmuError::NotMapped));
    assert_eq!(mmu.translate_address(&mem, ROOT, 0x40_1000), Ok(0xB000));
    assert_eq!(mmu.unmap_page(&mut mem, ROOT, 0x40_0000, &mut frames), Err(MmuError::NotMapped));
}

#[test]
fn bad_root_and_exhausted_allocator() {
    let (mut mem, _) = setup();
    let mmu = X86MmuManager::new();
    assert_eq!(mmu.translate_address(&mem, 0x100_0000, 0), Err(MmuError::PageTableCorrupted));
    let mut none = Frames { next: 0x2000, left: 0 };
    assert_eq!(mmu.map_page(&mut mem, 0x100_0000, 0, 0x1000, rw(), &mut none), Err(MmuError::PageTableCorrupted));
    assert_eq!(mmu.map_page(&mut mem, ROOT, 0x40_0000, 0x9000, rw(), &mut none), Err(MmuError::OutOfMemory));
}

#[test]
fn huge_page_translation() {
    let (mut mem, _) = setup();
    let mmu = X86MmuManager::new();
    // root[0] -> PDPT at 0x3000; PDPT[1] is a present huge entry at 0x8000_0000,
    // which this walk resolves as a 2 MiB page.
    mem.write_entry(ROOT, 0, 0x3000 | 0x3);
    mem.write_entry(0x3000, 1, 0x8000_0000 | 0x83);
    let va = 0x4000_0000 + 0x1234_5678;
    assert_eq!(mmu.translate_address(&mem, ROOT, va), Ok(0x8000_0000 + (va & 0x1F_FFFF)));
    // A huge entry in the top-level table is resolved as a 1 GiB page.
    mem.write_entry(ROOT, 1, 0xC000_0000 | 0x83);
    let high = (1u64 << 39) + 0x0765_4321;
    assert_eq!(mmu.translate_address(&mem, ROOT, high), Ok(0xC000_0000 + 0x0765_4321));
    // A huge page-directory entry maps a 2 MiB page.
    mem.write_entry(0x3000, 2, 0x4000 | 0x3);
    mem.write_entry(0x4000, 3, 0x60_0000 | 0x83);
    let in_pd = 0x8000_0000 + 3 * 0x20_0000 + 0x1_2345;
    assert_eq!(mmu.translate_address(&mem, ROOT, in_pd), Ok(0x60_0000 + 0x1_2345));
}

#[test]
fn huge_entries_block_page_operations() {
    let (mut mem, mut frames) = setup();
    let mmu = X86MmuManager::new();
    mem.write_entry(ROOT, 0, 0x3000 | 0x3);
    mem.write_entry(0x3000, 1, 0x8000_0000 | 0x83);
    assert_eq!(mmu.map_page(&mut mem, ROOT, 0x4000_0000, 0x9000, rw(), &mut frames), Err(MmuError::AlreadyMapped));
    assert_eq!(mmu.unmap_page(&mut mem, ROOT, 0x4000_0000, &mut frames), Err(MmuError::NotSupported));
}

#[test]
fn map_and_unmap_ranges() {
    let (mut mem, mut frames) = setup();
    let mmu = X86MmuManager::new();
    assert_eq!(mmu.map_range(&mut mem, ROOT, 0x60_0000, 0x20_0000, 0x2001, rw(), &mut frames), Ok(()));
    for k in 0..3u64 {
        assert_eq!(mmu.translate_address(&mem, ROOT, 0x60_0000 + k * 0x1000 + 5), Ok(0x20_0000 + k * 0x1000 + 5));
    }
    assert_eq!(mmu.translate_address(&mem, ROOT, 0x60_3000), Err(MmuError::NotMapped));
    assert_eq!(mmu.map_range(&mut mem, ROOT, 0x70_0000, 0x20_0000, 0, rw(), &mut frames), Ok(()));
    assert_eq!(mmu.map_range(&mut mem, ROOT, 0x70_0001, 0x20_0000, 10, rw(), &mut frames), Err(MmuError::InvalidArgument));
    assert_eq!(mmu.unmap_range(&mut mem, ROOT, 0x60_0000, 0x3000, &mut frames), Ok(()));
    for k in 0..3u64 {
        assert_eq!(mmu.translate_address(&mem, ROOT, 0x60_0000 + k * 0x1000), Err(MmuError::NotMapped));
    }
}

#[test]
fn shared_unmap_reports_kernel_errors() {
    let (mut mem, mut frames) = setup();
    let mmu = X86MmuManager::new();
    assert_eq!(shared_mem_unmap(&mmu, &mut mem, ROOT, 0x60_0010, 0x1000, &mut frames), Err(KError::InvalidArgument));
    assert_eq!(shared_mem_unmap(&mmu, &mut mem, ROOT, 0x60_0000, 0x1000, &mut frames), Err(KError::InternalError));
    mmu.map_page(&mut mem, ROOT, 0x60_0000, 0x9000, rw(), &mut frames).unwrap();
    assert_eq!(shared_mem_unmap(&mmu, &mut mem, ROOT, 0x60_0000, 0x1000, &mut frames), Ok(()));
}

#[test]
fn new_address_space_keeps_kernel_half() {
    let (mut mem, mut frames) = setup();
    let mmu = X86MmuManager::new();
    let kernel = PageTableEntry::new(0x5000, PageFlags::present().with(PageFlags::writable()));
    let root = mmu.create_new_page_table(&mut mem, &mut frames, kernel).unwrap();
    assert_eq!(root, 0x2000);
    assert_eq!(mem.read_entry(root, 511), 0x5003);
    assert!((0..511).all(|i| mem.read_entry(root, i) == 0));
    let mut none = Frames { next: 0, left: 0 };
    assert!(matches!(mmu.create_new_page_table(&mut mem, &mut none, kernel), Err(MmuError::OutOfMemory)));
}

#[test]
fn error_mapping_and_codes() {
    assert_eq!(map_mmu_error(MmuError::OutOfMemory), KError::OutOfMemory);
    assert_eq!(map_mmu_error(MmuError::AlreadyMapped), KError::AlreadyExists);
    assert_eq!(map_mmu_error(MmuError::NotMapped), KError::NotFound);
    assert_eq!(map_mmu_error(MmuError::InvalidArgument), KError::InvalidArgument);
    assert_eq!(map_mmu_error(MmuError::PageTableCorrupted), KError::InternalError);
    assert_eq!(MmuError::NotMapped.code(), -203);
    assert_eq!(memory_allocate(4096), Err(KError::NotSupported));
    assert_eq!(KError::BadAddress.code(), -14);
    assert_eq!(KError::InternalError.code(), -255);
}

#[test]
fn placeholder_allocator_runs_out() {
    let mut a = PlaceholderFrameAllocator::new();
    assert_eq!(a.allocate(), Some(0x100_0000));
    assert_eq!(a.allocate_frame(), Some(0x100_1000));
    for _ in 0..98 {
        assert!(a.allocate().is_some());
    }
    assert_eq!(a.allocate(), None);
}

#[test]
fn tsc_to_nanoseconds() {
    assert_eq!(get_monotonic_time_ns(1234, ASSUMED_TSC_FREQ_HZ), 1234);
    assert_eq!(get_monotonic_time_ns(3_000_000_000, 3_000_000_000), 1_000_000_000);
    assert_eq!(get_monotonic_time_ns(u64::MAX, 1_000_000_000), u64::MAX);
    assert_eq!(get_monotonic_time_ns(5, 0), 0);
    assert_eq!(get_monotonic_time_ns(u64::MAX, 1), ((u64::MAX as u128 * 1_000_000_000) as u64));
}

#[test]
fn timer_resource() {
    let t = KernelTimerResource;
    let mut buf = [0u8; 8];
    assert_eq!(t.read(&mut buf, 0, 0x1122_3344_5566_7788), Ok(8));
    assert_eq!(buf, 0x1122_3344_5566_7788u64.to_le_bytes());
    let mut short = [9u8; 4];
    assert_eq!(t.read(&mut short, 0, 1), Err(KError::InvalidArgument));
    assert_eq!(short, [9u8; 4]);
    assert_eq!(t.get_status(), Ok(KResourceStatus::Ready));
    assert_eq!(t.control(1, 2), Err(KError::NotSupported));
}

#[test]
fn serial_port_setup() {
    let p = SerialPort::new(COM1_PORT);
    assert_eq!(
        p.init(),
        vec![
            PortAccess::Write { port: 0x3F9, value: 0x00 },
            PortAccess::Write { port: 0x3FB, value: 0x80 },
            PortAccess::Write { port: 0x3F8, value: 0x03 },
            PortAccess::Write { port: 0x3F9, value: 0x00 },
            PortAccess::Write { port: 0x3FB, value: 0x03 },
            PortAccess::Write { port: 0x3FA, value: 0xC7 },
            PortAccess::Write { port: 0x3FC, value: 0x0B },
            PortAccess::Read { port: 0x3FD },
        ]
    );
    assert_eq!(p.line_status_port(), 0x3FD);
    assert!(p.is_transmit_empty(0x60));
    assert!(!p.is_transmit_empty(0x01));
    assert!(p.is_data_available(0x61));
    assert!(!p.is_data_available(0x20));
}

#[test]
fn idt_entries() {
    let mut e = IdtEntry::null();
    e.set_handler_fn(0xFFFF_8000_1234_5678, 8, Some(1));
    assert_eq!(e.handler_low, 0x5678);
    assert_eq!(e.handler_middle, 0x1234);
    assert_eq!(e.handler_high, 0xFFFF_8000);
    assert_eq!(e.options, 0x8E01);
    e.set_handler_fn(0x1000, 8, Some(9));
    assert_eq!(e.options, 0x8E00);
    assert!(e.has_handler());
    assert!(!IdtEntry::null().has_handler());
}

#[test]
fn idt_table() {
    let h = IdtHandlers {
        divide_error: 0x100,
        breakpoint: 0x200,
        invalid_opcode: 0x300,
        gp_fault: 0x400,
        page_fault: 0x500,
        double_fault: 0x600,
        syscall: 0x700,
        timer: 0x800,
        unknown: 0x900,
    };
    let t = init(&h);
    assert_eq!(t.entries.len(), 256);
    assert_eq!(t.entries[0xE].handler_low, 0x500);
    assert_eq!(t.entries[8].options, 0x8E01);
    assert_eq!(t.entries[0x80].handler_low, 0x700);
    assert_eq!(t.entries[0x21].handler_low, 0x900);
    assert_eq!(t.entries[255].handler_low, 0x900);
    assert_eq!(t.limit(), 4095);
    let empty = InterruptDescriptorTable::new();
    assert!(empty.entries.iter().all(|e| !e.has_handler()));
}

#[test]
fn page_fault_error_bits() {
    let c = PageFaultErrorCode(0b10110);
    assert!(!c.present());
    assert!(c.write());
    assert!(c.user());
    assert!(!c.reserved());
    assert!(c.instruction_fetch());
}

#[test]
fn interrupt_dispatch() {
    assert_eq!(common_interrupt_handler(0x20), InterruptAction::TimerTick);
    assert_eq!(common_interrupt_handler(0x21), InterruptAction::Keyboard);
    assert_eq!(common_interrupt_handler(3), InterruptAction::Breakpoint);
    assert_eq!(common_interrupt_handler(0xE), InterruptAction::Panic);
    assert_eq!(common_interrupt_handler(0x80), InterruptAction::Panic);
}

#[test]
fn syscall_registers() {
    let mut f = TrapFrame {
        r15: 0, r14: 0, r13: 0, r12: 0, r11: 0, r10: 4, r9: 9, r8: 5, rsi: 2, rdi: 1, rbp: 0, rbx: 0, rdx: 3, rax: 60,
    };
    assert_eq!(x86_64_syscall_handler(&f), SyscallRequest { number: 60, arg1: 1, arg2: 2, arg3: 3, arg4: 4, arg5: 5 });
    complete_syscall(&mut f, -38);
    assert_eq!(f.rax, (-38i64) as u64);
    assert_eq!(f.r9, 9);
}

#[test]
fn thread_context() {
    let c = create_initial_context(0x7FFF_0000, 0x40_1000, 99);
    assert_eq!(c.rip, 0x40_1000);
    assert_eq!(c.rsp, 0x7FFF_0000);
    assert_eq!(c.regs, [0u64; 7]);
    assert_eq!((c.cs, c.ss), (0, 0));
}

#[test]
fn panic_serial_line_endings() {
    assert_eq!(serial_bytes("a\nb"), b"a\r\nb".to_vec());
    assert_eq!(serial_bytes("\n\n"), b"\r\n\r\n".to_vec());
    assert_eq!(serial_bytes(""), Vec::<u8>::new());
}

#[test]
fn mapping_writes_the_whole_entry_and_refuses_a_present_one() {
    let (mut mem, mut frames) = setup();
    let mmu = X86MmuManager::new();
    let flags = PageFlags::writable().with(PageFlags::no_execute());
    assert_eq!(mmu.map_page(&mut mem, ROOT, 0x40_0000, 0x9000, flags, &mut frames), Ok(()));
    // root, PDPT, PD and PT came from 0x2000, 0x3000, 0x4000.
    assert_eq!(mem.read_entry(0x4000, 0), 0x9000 | 0x8000_0000_0000_0003);
    let before = mem.words.clone();
    assert_eq!(mmu.map_page(&mut mem, ROOT, 0x40_0000, 0xA000, flags, &mut frames), Err(MmuError::AlreadyMapped));
    assert_eq!(mem.words, before);
}

#[test]
fn a_self_referencing_root_is_walked_through() {
    let (mut mem, mut frames) = setup();
    let mmu = X86MmuManager::new();
    mem.write_entry(ROOT, 0, ROOT | 0x3);
    assert_eq!(mmu.map_page(&mut mem, ROOT, 0x1000, 0x9000, rw(), &mut frames), Ok(()));
    assert_eq!(mem.read_entry(ROOT, 1), 0x9000 | 0x3);
    assert_eq!(frames.left, 62);
}

#[test]
fn new_root_takes_the_allocators_frame() {
    let (mut mem, _) = setup();
    let mmu = X86MmuManager::new();
    let mut frames = Frames { next: 0x7000, left: 1 };
    let kernel = PageTableEntry::new(0x5000, PageFlags::present());
    assert_eq!(mmu.create_new_page_table(&mut mem, &mut frames, kernel), Ok(0x7000));
    let mut outside = Frames { next: 0x100_0000, left: 1 };
    assert_eq!(mmu.create_new_page_table(&mut mem, &mut outside, kernel), Err(MmuError::PageTableCorrupted));
}

#[test]
fn a_missing_table_needs_a_usable_frame() {
    let (mut mem, _) = setup();
    let mmu = X86MmuManager::new();
    let before = mem.words.clone();
    let mut outside = Frames { next: 0x100_0000, left: 3 };
    assert_eq!(mmu.map_page(&mut mem, ROOT, 0x40_0000, 0x9000, rw(), &mut outside), Err(MmuError::PageTableCorrupted));
    assert_eq!(mem.words, before);
    let mut three = Frames { next: 0x2000, left: 3 };
    assert_eq!(mmu.map_page(&mut mem, ROOT, 0x40_0000, 0x9000, rw(), &mut three), Ok(()));
    assert_eq!(three.left, 0);
    assert_eq!(mem.read_entry(ROOT, 0), 0x2000 | 0x7);
}
