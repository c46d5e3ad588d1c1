use karnal_arch::karnal::{KError, MODE_READ, MODE_WRITE};
use karnal_arch::loongarch64::dtb::{init_from_dtb, phys_to_virt, DeviceTree, DtbInitReport, DtbNode, MmioUartProvider};
use karnal_arch::loongarch64::exception::{
    complete_syscall, exception_handler, extract_exception_code, read_crmd, ExceptionAction, TaskContext,
};
use karnal_arch::loongarch64::mmu::{
    handle_arch_page_fault, handle_page_fault, init_memory_management, ArchitectureFaultInfo, FaultType,
    LoongArchPteFlags, MmuControlWrites, PageTable, PhysAddr, PteFlags, VirtAddr,
};
use karnal_arch::loongarch64::panic::{format_hex, panic_location, register_state_report, PanicRegisters};
use karnal_arch::loongarch64::platform::{map_page, syscall_return_value, translate_address, unmap_page};
use karnal_arch::loongarch64::task::{arch_create_task_context, LoongArchContext};
use karnal_arch::loongarch64::time::LoongArchTimeSource;
use karnal_arch::loongarch64::trap::{complete_trap_syscall, handle_trap, TrapAction, TrapContext};

#[test]
fn address_alignment() {
    let v = VirtAddr(0x1234_5678);
    assert_eq!(v.page_offset(), 0x678);
    assert_eq!(v.page_align_down(), VirtAddr(0x1234_5000));
    assert_eq!(v.page_align_up(), VirtAddr(0x1234_6000));
    assert_eq!(VirtAddr(0x2000).page_align_up(), VirtAddr(0x2000));
    assert_eq!(VirtAddr(0x2000).add_offset(0x10), VirtAddr(0x2010));
    let p = PhysAddr(0x8000_0FFF);
    assert_eq!(p.page_offset(), 0xFFF);
    assert_eq!(p.page_align_down(), PhysAddr(0x8000_0000));
    assert_eq!(p.add_offset(1), PhysAddr(0x8000_1000));
}

fn rw_user() -> PteFlags {
    PteFlags::from_flag(LoongArchPteFlags::Valid)
        .union(PteFlags::from_flag(LoongArchPteFlags::Read))
        .union(PteFlags::from_flag(LoongArchPteFlags::Write))
        .union(PteFlags::from_flag(LoongArchPteFlags::User))
}

#[test]
fn pte_flags() {
    let f = rw_user();
    assert_eq!(f.bits(), 0x87);
    assert!(f.contains(PteFlags::from_flag(LoongArchPteFlags::Write)));
    assert!(!f.contains(PteFlags::from_flag(LoongArchPteFlags::Executable)));
    assert_eq!(PteFlags::empty().bits(), 0);
    assert_eq!(PteFlags::from_bits_truncate(0x1FF).bits(), 0xFF);
    assert_eq!(LoongArchPteFlags::Dirty.bit(), 32);
}

#[test]
fn map_then_translate_then_unmap() {
    let mut t = PageTable::new().unwrap();
    assert_eq!(translate_address(&t, VirtAddr(0x4000_1234)), None);
    assert_eq!(map_page(&mut t, VirtAddr(0x4000_1000), PhysAddr(0x9000_0000), rw_user()), Ok(()));
    assert_eq!(t.entries[1], 0x9000_0087);
    assert_eq!(translate_address(&t, VirtAddr(0x4000_1234)), Some(PhysAddr(0x9000_0234)));
    assert_eq!(t.translate(VirtAddr(0x4000_1000)), Some(PhysAddr(0x9000_0000)));
    assert_eq!(unmap_page(&mut t, VirtAddr(0x4000_1000)), Ok(()));
    assert_eq!(t.entries[1], 0x9000_0086);
    assert_eq!(translate_address(&t, VirtAddr(0x4000_1234)), None);
}

#[test]
fn unaligned_mapping_is_refused() {
    let mut t = PageTable::new().unwrap();
    assert_eq!(t.map_page(VirtAddr(0x1001), PhysAddr(0x2000), rw_user()), Err(KError::InvalidArgument));
    assert_eq!(t.map_page(VirtAddr(0x1000), PhysAddr(0x2001), rw_user()), Err(KError::InvalidArgument));
    assert_eq!(t.unmap_page(VirtAddr(0x1008)), Err(KError::InvalidArgument));
    assert!(t.entries.iter().all(|&e| e == 0));
}

#[test]
fn mmu_bring_up() {
    assert_eq!(init_memory_management(0x10), Ok(MmuControlWrites { pgdb: 0x10_0003, crmd: 0x14 }));
    assert_eq!(init_memory_management(0x4), Ok(MmuControlWrites { pgdb: 0x10_0003, crmd: 0x4 }));
}

#[test]
fn page_faults() {
    assert_eq!(handle_page_fault(VirtAddr(0x1234_0000), FaultType::Write), Ok(()));
    assert_eq!(handle_page_fault(VirtAddr(0x1234_EFFF), FaultType::Write), Ok(()));
    assert_eq!(handle_page_fault(VirtAddr(0x1234_F000), FaultType::Write), Err(KError::BadAddress));
    assert_eq!(handle_page_fault(VirtAddr(0x1234_1000), FaultType::Read), Err(KError::BadAddress));
    let info = ArchitectureFaultInfo { address: VirtAddr(0x1234_5000), kind: FaultType::Write };
    assert_eq!(handle_arch_page_fault(&info), Ok(()));
}

#[test]
fn initial_task_context() {
    let c = LoongArchContext::create_initial_context(0x40_0000, 0x8000_0000, 7, true, 0xFFFF_0000);
    assert_eq!(c.csr_era, 0x40_0000);
    assert_eq!(c.gprs[3], 0x8000_0000);
    assert_eq!(c.gprs[4], 7);
    assert_eq!(c.gprs[1], 0xFFFF_0000);
    assert_eq!(c.csr_crmd, 0b11);
    assert_eq!(c.gprs.iter().filter(|&&g| g != 0).count(), 3);
    let k = LoongArchContext::create_initial_context(1, 2, 3, false, 4);
    assert_eq!(k.csr_crmd, 0);
}

#[test]
fn task_context_stack_overflow() {
    let c = arch_create_task_context(0x1000, 0x7000_0000, 0x2000, 1, true, 0).unwrap();
    assert_eq!(c.gprs[3], 0x7000_2000);
    assert!(matches!(arch_create_task_context(0x1000, u64::MAX - 10, 0x2000, 1, true, 0), Err(KError::InvalidArgument)));
}

fn ctx_with(crmd: u64) -> TaskContext {
    let mut tf = TaskContext::default();
    tf.crmd = crmd;
    tf.r11 = 64;
    tf.r4 = 1;
    tf.r5 = 2;
    tf.r6 = 3;
    tf.r7 = 4;
    tf.r8 = 5;
    tf.erbaddr = 0xdead_0000;
    tf.pc = 0x1000;
    tf
}

#[test]
fn exception_decoding() {
    assert_eq!(extract_exception_code(0x1234_560C), 0x0C);
    assert_eq!(read_crmd(), 0);
    assert_eq!(exception_handler(&ctx_with(0x0C)), ExceptionAction::Syscall { number: 64, args: (1, 2, 3, 4, 5) });
    assert_eq!(exception_handler(&ctx_with(0x01)), ExceptionAction::Terminate(KError::BadAddress));
    assert_eq!(exception_handler(&ctx_with(0x107)), ExceptionAction::Terminate(KError::BadAddress));
    assert_eq!(exception_handler(&ctx_with(0x80)), ExceptionAction::Resume);
    assert_eq!(exception_handler(&ctx_with(0x33)), ExceptionAction::Panic { code: 0x33 });
}

#[test]
fn syscall_completion() {
    let mut tf = ctx_with(0x0C);
    complete_syscall(&mut tf, -14);
    assert_eq!(tf.r4, (-14i64) as u64);
    assert_eq!(tf.pc, 0x1004);
    assert_eq!(tf.r5, 2);
    assert_eq!(syscall_return_value(Ok(42)), 42);
    assert_eq!(syscall_return_value(Err(KError::BadHandle)), (-9i64) as u64);
}

#[test]
fn boot_trap_dispatch() {
    let mut regs = [0u64; 32];
    for (i, r) in regs.iter_mut().enumerate() {
        *r = i as u64 * 10;
    }
    let mut tc = TrapContext { regs, csr_era: 0x2000, csr_badv: 0, csr_cause: 0x0C };
    assert_eq!(handle_trap(&tc), TrapAction::Syscall { number: 70, args: (40, 50, 60, 80, 90) });
    complete_trap_syscall(&mut tc, 5);
    assert_eq!(tc.regs[4], 5);
    assert_eq!(tc.csr_era, 0x2004);
    tc.csr_cause = 3;
    assert_eq!(handle_trap(&tc), TrapAction::Halt { cause: 3, era: 0x2004 });
}

#[test]
fn clock_resource() {
    let clock = LoongArchTimeSource;
    let mut buf = [0xAAu8; 10];
    assert_eq!(clock.read(&mut buf, 0, 0x0102_0304_0506_0708), Ok(8));
    assert_eq!(buf, [8, 7, 6, 5, 4, 3, 2, 1, 0xAA, 0xAA]);
    let mut small = [0u8; 7];
    assert_eq!(clock.read(&mut small, 0, 5), Err(KError::InvalidArgument));
    assert_eq!(small, [0u8; 7]);
    assert_eq!(clock.read(&mut buf, 8, 5), Err(KError::InvalidArgument));
    assert!(clock.supports_mode(MODE_READ));
    assert!(!clock.supports_mode(MODE_READ | MODE_WRITE));
    assert_eq!(clock.write(&[1], 0), Err(KError::NotSupported));
}

#[test]
fn device_tree_reader() {
    let root = DtbNode { name: "soc-ns16550a-uart" };
    assert!(root.find_compatible("ns16550a").is_some());
    assert!(root.find_compatible("pl011").is_none());
    assert_eq!(root.get_property_bytes("reg"), Some(vec![0, 0, 0, 0, 0x10, 0, 0, 0]));
    assert_eq!(root.get_property_bytes("interrupts"), Some(vec![0, 0, 0, 4]));
    assert_eq!(root.get_property_bytes("clocks"), None);
    assert_eq!(root.get_property_u64_array("reg"), Some(vec![0x0000_0010_0000_0000]));
    assert_eq!(root.get_property_u32_array("interrupts"), Some(vec![0x0400_0000]));
    assert_eq!(root.get_property_u32_array("reg"), Some(vec![0, 0x10]));
    assert_eq!(root.get_property_u64_array("interrupts"), None);
    assert_eq!(root.find_node("/memory").map(|n| n.name), Some("memory"));
    assert_eq!(root.find_node("/cpus").map(|n| n.name), Some("cpus"));
    assert!(root.find_node("/chosen").is_none());
    assert!(root.children().is_empty());
    assert_eq!(phys_to_virt(0x1000, 0x9000_0000_0000_0000), 0x9000_0000_0000_1000);
}

#[test]
fn device_tree_boot() {
    assert!(DeviceTree::parse(0).is_err());
    assert_eq!(DeviceTree::parse(0x100).unwrap().root.name, "/");
    assert_eq!(init_from_dtb(0, 0), Err(KError::InvalidArgument));
    assert_eq!(
        init_from_dtb(0x8000_0000, 0x9000_0000_0000_0000),
        Ok(DtbInitReport { memory_region: None, cpu_count: 0, uart: None })
    );
}

#[test]
fn hex_formatting() {
    assert_eq!(format_hex(0), b"0x0".to_vec());
    assert_eq!(format_hex(0xdead_beef), b"0xdeadbeef".to_vec());
    assert_eq!(format_hex(u64::MAX), b"0xffffffffffffffff".to_vec());
    assert_eq!(format_hex(0x10), b"0x10".to_vec());
}

#[test]
fn panic_location_line() {
    assert_eq!(panic_location("src/mmu.rs", 42), b"at src/mmu.rs:42".to_vec());
    assert_eq!(panic_location("a", 0), b"at a:0".to_vec());
    assert_eq!(panic_location("b", u32::MAX), b"at b:4294967295".to_vec());
}

#[test]
fn panic_register_block() {
    let regs = PanicRegisters { pc: 0x1000, sp: 0x8000, ra: 0, cause: 0xc, status: 1, badvaddr: 0xdead };
    let text = String::from_utf8(register_state_report(&regs)).unwrap();
    assert_eq!(
        text,
        "LoongArch Register State:\n  PC: 0x1000\n  SP (R3): 0x8000\n  RA (R1): 0x0\n  Cause: 0xc\n  Status: 0x1\n  BadVAddr: 0xdead\n  (Other GPRs not shown)\n"
    );
}

#[test]
fn mmio_uart_registers() {
    let u = MmioUartProvider::new(0x1fe0_01e0);
    assert_eq!(u.register_address(0x14), 0x1fe0_01f4);
    assert!(u.rx_ready(0x61));
    assert!(!u.rx_ready(0x60));
    assert!(u.tx_ready(0x20));
    assert!(!u.tx_ready(0x01));
    assert_eq!(u.control(1, 1), Err(KError::NotSupported));
}
