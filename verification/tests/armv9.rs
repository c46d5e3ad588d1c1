use karnal_arch::armv9::dtb::{
    initialize_dtb_and_karnal64, initialize_karnal64_from_dtb, match_driver, parse_dtb_from_ptr, DriverMatch,
    DtbMemoryRegion,
};
use karnal_arch::armv9::exception::{
    complete_svc, exception_class, fault_status_code, handle_sync_exception_from_el0, SyncAction,
    TrapFrame as El0Frame,
};
use karnal_arch::armv9::interrupt::{
    complete_syscall, handle_sync_curr_el_spx_rust, handle_sync_lower_el_aarch64_rust, TrapAction, TrapFrame,
};
use karnal_arch::armv9::io::ArmUart;
use karnal_arch::armv9::mmu::{
    lookup_page, map_page, unmap_page, ArmMmu, KError as MmuKError, KHandle, PageTable, Pfa, SharedMemManager,
    VmspaceAllocator, USER_DATA_FLAGS, USER_VA_START,
};
use karnal_arch::armv9::panic::panic_console_bytes;
use karnal_arch::armv9::task::kmemory::KernelStacks;
use karnal_arch::armv9::task::{ScheduleOutcome, StackAllocator, TaskManager, TaskState};
use karnal_arch::armv9::time::{
    delay, delay_elapsed, gicd_icenabler_offset, gicd_irouter_offset, gicd_isenabler_offset,
    interrupt_enable_mask, ticks, TickCounter,
};
use karnal_arch::karnal::{KError, MODE_READ, MODE_WRITE};
use karnal_arch::physmem::PhysMemory;

const HEAP: u64 = 0x4000_0000;

/// What a lookup gives for a page mapped with the user data flags: the
/// descriptor with its low twelve bits cleared, so the execute-never bit
/// stays.
fn mapped(frame: u64) -> u64 {
    frame | (USER_DATA_FLAGS & !0xFFF)
}

fn mmu() -> ArmMmu {
    ArmMmu::init_manager(PhysMemory::new(HEAP, 64).unwrap(), HEAP, 64 * 0x1000)
}

#[test]
fn page_table_accessors() {
    let mut t = PageTable::new();
    assert!(t.is_empty());
    *t.entry_mut(5).unwrap() = 7;
    assert_eq!(t.entry(5), Some(&7));
    assert!(t.entry(512).is_none());
    assert!(t.entry_mut(600).is_none());
    assert!(!t.is_empty());
}

#[test]
fn frame_allocator() {
    let mut p = Pfa::init(0x1000, 0x2000);
    assert_eq!(p.allocate_frame(), Some(0x1000));
    assert_eq!(p.allocate_frame(), Some(0x2000));
    assert_eq!(p.allocate_frame(), None);
}

#[test]
fn map_lookup_unmap() {
    let mut mem = PhysMemory::new(HEAP, 16).unwrap();
    let mut pfa = Pfa::init(HEAP + 0x1000, 15 * 0x1000);
    let l1 = HEAP;
    assert_eq!(lookup_page(&mem, l1, 0x1000_0000), Err(MmuKError::BadAddress));
    assert_eq!(map_page(&mut mem, &mut pfa, l1, 0x1000_0000, 0x9_0000, USER_DATA_FLAGS), Ok(()));
    assert_eq!(lookup_page(&mem, l1, 0x1000_0000), Ok(0x9_0000 | USER_DATA_FLAGS));
    assert_eq!(map_page(&mut mem, &mut pfa, l1, 0x1000_0000, 0xA_0000, USER_DATA_FLAGS), Err(MmuKError::AlreadyExists));
    assert_eq!(map_page(&mut mem, &mut pfa, l1, 0x1000_0008, 0xA_0000, USER_DATA_FLAGS), Err(MmuKError::AddressNotPageAligned));
    assert_eq!(lookup_page(&mem, l1, 0x1000_0010), Err(MmuKError::AddressNotPageAligned));
    assert_eq!(unmap_page(&mut mem, l1, 0x1000_0000), Ok(mapped(0x9_0000)));
    assert_eq!(lookup_page(&mem, l1, 0x1000_0000), Err(MmuKError::BadAddress));
    assert_eq!(unmap_page(&mut mem, l1, 0x1000_0000), Err(MmuKError::BadAddress));
}

#[test]
fn mapping_needs_frames_for_new_tables() {
    let mut mem = PhysMemory::new(HEAP, 16).unwrap();
    let mut empty = Pfa::init(HEAP + 0x1000, 0);
    assert_eq!(map_page(&mut mem, &mut empty, HEAP, 0x1000_0000, 0x9_0000, USER_DATA_FLAGS), Err(MmuKError::OutOfMemory));
    assert_eq!(map_page(&mut mem, &mut empty, HEAP + 0x10_0000, 0x1000_0000, 0x9_0000, USER_DATA_FLAGS),
        Err(MmuKError::InternalError));
    assert_eq!(MmuKError::AddressNotPageAligned.code(), -101);
}

#[test]
fn virtual_range_first_fit() {
    let mut mem = PhysMemory::new(HEAP, 16).unwrap();
    let mut pfa = Pfa::init(HEAP + 0x1000, 15 * 0x1000);
    let l1 = HEAP;
    map_page(&mut mem, &mut pfa, l1, 0x1000_1000, 0x9_0000, USER_DATA_FLAGS).unwrap();
    let mut va = VmspaceAllocator::new_with_range(0x1000_0000, 0x1001_0000);
    assert_eq!(va.allocate_pages(2, &mem, l1), Ok(0x1000_2000));
    assert_eq!(va.next_vaddr, 0x1000_4000);
    assert_eq!(va.allocate_pages(0, &mem, l1), Ok(0));
    assert_eq!(va.allocate_pages(0x20, &mem, l1), Err(MmuKError::OutOfMemory));
}

#[test]
fn shared_objects_register_and_release() {
    let mut s = SharedMemManager::new();
    let h = s.register_object(vec![0x1000, 0x2000]).unwrap();
    assert_eq!(h, KHandle(1000));
    assert_eq!(s.get_object_frames(&h), Ok(&vec![0x1000, 0x2000]));
    let h2 = s.register_object(vec![0x3000]).unwrap();
    assert_eq!(h2, KHandle((1u64 << 32) | 1001));
    assert_eq!(s.release_object(&h), Ok(()));
    assert!(s.get_object_frames(&h).is_err());
    assert_eq!(s.release_object(&h), Err(MmuKError::BadHandle));
    assert_eq!(s.release_object(&KHandle(40u64 << 32)), Err(MmuKError::BadHandle));
}

#[test]
fn user_memory_round_trip() {
    let mut m = mmu();
    assert_eq!(m.get_current_task_id().0, 0);
    assert_eq!(m.lookup_vaddr_phys(USER_VA_START), Err(MmuKError::BadAddress));
    assert_eq!(m.allocate_user_memory(0), Ok(0));
    let a = m.allocate_user_memory(0x2001).unwrap();
    assert_eq!(a, USER_VA_START);
    assert_eq!(m.get_current_task_id().0, 1);
    for k in 0..3u64 {
        assert_eq!(m.lookup_vaddr_phys(a + k * 0x1000), Ok(mapped(HEAP + 0x1000 + k * 0x1000)));
    }
    assert_eq!(m.get_current_user_va_allocator().unwrap().next_vaddr, USER_VA_START + 0x3000);
    let b = m.allocate_user_memory(0x1000).unwrap();
    assert_eq!(b, USER_VA_START + 0x3000);
    assert_eq!(m.free_user_memory(a + 8, 0x1000), Err(MmuKError::AddressNotPageAligned));
    assert_eq!(m.free_user_memory(a, 0x3000), Ok(()));
    for k in 0..3u64 {
        assert_eq!(m.lookup_vaddr_phys(a + k * 0x1000), Err(MmuKError::BadAddress));
    }
    assert!(m.lookup_vaddr_phys(b).is_ok());
    assert_eq!(m.free_user_memory(0, 0x1000), Ok(()));
}

#[test]
fn shared_memory_map_and_unmap() {
    let mut m = mmu();
    assert_eq!(m.shared_mem_create(0), Err(MmuKError::InvalidArgument));
    let h = m.shared_mem_create(0x2000).unwrap();
    let frames = m.shared.get_object_frames(&h).unwrap().clone();
    assert_eq!(frames, vec![HEAP, HEAP + 0x1000]);
    assert_eq!(m.shared_mem_map(h.0, 0x10, 0x1000), Err(MmuKError::AddressNotPageAligned));
    assert_eq!(m.shared_mem_map(h.0 + (5u64 << 32), 0, 0x1000), Err(MmuKError::BadHandle));
    assert_eq!(m.shared_mem_map(h.0, 0x2000, 0x1000), Err(MmuKError::InvalidArgument));
    let va = m.shared_mem_map(h.0, 0x1000, 0x1000).unwrap();
    assert_eq!(m.lookup_vaddr_phys(va), Ok(mapped(frames[1])));
    assert_eq!(m.shared_mem_unmap(va, 0x1000), Ok(()));
    assert_eq!(m.lookup_vaddr_phys(va), Err(MmuKError::BadAddress));
}

struct Stacks {
    next: u64,
}

impl StackAllocator for Stacks {
    fn stack_outcome(&self, _size: usize) -> Result<u64, KError> {
        Ok(self.next)
    }

    fn allocate_stack(&mut self, size: usize) -> Result<u64, KError> {
        let base = self.next;
        self.next += size as u64;
        Ok(base)
    }

    fn free_stack(&mut self, _ptr: u64, _size: usize) -> Result<(), KError> {
        Ok(())
    }
}

#[test]
fn tasks_spawn_and_run_in_order() {
    let mut tm = TaskManager::init_manager();
    let mut stacks = Stacks { next: 0x8000_0000 };
    assert_eq!(tm.get_current_task_id().0, 0);
    assert_eq!(tm.task_spawn(&mut stacks, 1, 0, 0, 0xDEAD).unwrap().0, 1);
    assert_eq!(tm.task_spawn(&mut stacks, 1, 0, 0, 0xDEAD).unwrap().0, 2);
    let t1 = tm.task_pool[1].unwrap();
    assert_eq!(t1.sp, 0x8000_2000);
    assert_eq!(t1.x30, 0xDEAD);
    assert_eq!(t1.elr_el1, 0x40_0000);
    assert_eq!(t1.state, TaskState::Ready);
    assert_eq!(tm.schedule(), ScheduleOutcome::Switch { prev: Some(0), next: 1 });
    assert_eq!(tm.get_current_task_id().0, 1);
    assert_eq!(tm.task_pool[0].unwrap().state, TaskState::Ready);
    assert_eq!(tm.schedule(), ScheduleOutcome::Switch { prev: Some(1), next: 2 });
    assert_eq!(tm.task_exit(&mut stacks, 0), ScheduleOutcome::Switch { prev: None, next: 0 });
    assert!(tm.task_pool[2].is_none());
}

#[test]
fn yielding_requeues_the_task() {
    let mut tm = TaskManager::init_manager();
    let mut stacks = Stacks { next: 0x1000_0000 };
    tm.task_spawn(&mut stacks, 1, 0, 0, 0).unwrap();
    tm.schedule();
    assert_eq!(tm.yield_now(), Ok(ScheduleOutcome::Switch { prev: Some(1), next: 1 }));
    assert_eq!(tm.task_sleep(10), Err(KError::NotSupported));
    assert_eq!(tm.task_pool[1].unwrap().state, TaskState::Sleeping);
    assert_eq!(tm.yield_now(), Err(KError::InvalidArgument));
}

#[test]
fn spawning_needs_a_stack_and_a_slot() {
    let mut tm = TaskManager::init_manager();
    assert_eq!(tm.task_spawn(&mut KernelStacks, 1, 0, 0, 0), Err(KError::OutOfMemory));
    let mut stacks = Stacks { next: 0x1000_0000 };
    for id in 1..32u64 {
        assert_eq!(tm.task_spawn(&mut stacks, 1, 0, 0, 0).unwrap().0, id);
    }
    assert_eq!(tm.task_spawn(&mut stacks, 1, 0, 0, 0), Err(KError::OutOfMemory));
}

#[test]
fn el0_sync_exceptions() {
    let mut x = [0u64; 31];
    for (i, r) in x.iter_mut().enumerate() {
        *r = 100 + i as u64;
    }
    let mut tf = El0Frame { x, sp_el0: 0, elr_el1: 0x4000, spsr_el1: 0 };
    assert_eq!(exception_class(0x5600_0000), 0b010101);
    assert_eq!(
        handle_sync_exception_from_el0(&tf, 0x5600_0000),
        SyncAction::Syscall { number: 108, args: (100, 101, 102, 103, 104) }
    );
    assert_eq!(handle_sync_exception_from_el0(&tf, 0x8000_0000), SyncAction::InstructionAbort { esr: 0x8000_0000, elr: 0x4000 });
    assert_eq!(handle_sync_exception_from_el0(&tf, 0x8800_0000), SyncAction::DataAbort { esr: 0x8800_0000, elr: 0x4000 });
    assert_eq!(handle_sync_exception_from_el0(&tf, 0x8400_0000), SyncAction::SameLevelAbort);
    assert_eq!(handle_sync_exception_from_el0(&tf, 0), SyncAction::Unknown { esr: 0, elr: 0x4000 });
    complete_svc(&mut tf, -1);
    assert_eq!(tf.x[0], u64::MAX);
    assert_eq!(tf.x[1], 101);
    assert_eq!(fault_status_code(0x9200_0047), 0x07);
}

#[test]
fn vector_sync_exceptions() {
    let mut f = TrapFrame { x: [0; 31], sp_el0: 0, elr_el1: 0x100, spsr_el1: 0, esr_el1: 0x5600_0000, far_el1: 0xBAD };
    f.x[8] = 3;
    f.x[0] = 9;
    assert_eq!(handle_sync_lower_el_aarch64_rust(&f), TrapAction::Syscall { number: 3, args: (9, 0, 0, 0, 0) });
    complete_syscall(&mut f, 77);
    assert_eq!(f.x[0], 77);
    f.esr_el1 = 0x9000_0000;
    assert_eq!(handle_sync_lower_el_aarch64_rust(&f), TrapAction::DataAbort { esr: 0x9000_0000, far: 0xBAD, elr: 0x100 });
    assert_eq!(handle_sync_curr_el_spx_rust(&f), TrapAction::DataAbort { esr: 0x9000_0000, far: 0xBAD, elr: 0x100 });
    f.esr_el1 = 0x8400_0000;
    assert_eq!(handle_sync_lower_el_aarch64_rust(&f), TrapAction::InstructionAbort { esr: 0x8400_0000, elr: 0x100 });
    f.esr_el1 = 0x5600_0000;
    assert_eq!(handle_sync_curr_el_spx_rust(&f), TrapAction::Invalid { ec: 0b010101 });
}

#[test]
fn tick_counter_and_delay() {
    let mut c = TickCounter::new();
    c.on_timer_interrupt();
    c.on_timer_interrupt();
    assert_eq!(ticks(&c), 2);
    let mut top = TickCounter { count: u64::MAX };
    top.on_timer_interrupt();
    assert_eq!(top.count, 0);
    let target = delay(ticks(&c), 10);
    assert_eq!(target, 12);
    assert!(!delay_elapsed(11, target));
    assert!(delay_elapsed(12, target));
}

#[test]
fn gic_offsets_for_the_timer() {
    assert_eq!(gicd_irouter_offset(30), 0x8000 + 28);
    assert_eq!(gicd_isenabler_offset(30), 0x100);
    assert_eq!(gicd_isenabler_offset(33), 0x104);
    assert_eq!(gicd_icenabler_offset(30), 0x180);
    assert_eq!(interrupt_enable_mask(30), 1 << 30);
    assert_eq!(interrupt_enable_mask(33), 2);
}

#[test]
fn uart_modes() {
    let u = ArmUart;
    assert!(u.supports_mode(MODE_READ));
    assert!(u.supports_mode(MODE_READ | MODE_WRITE));
    assert!(!u.supports_mode(4));
    let mut buf = [1u8; 4];
    assert_eq!(u.read(&mut buf, 0), Ok(0));
    assert_eq!(buf, [1u8; 4]);
    assert_eq!(u.control(0, 0), Err(KError::NotSupported));
}

#[test]
fn device_tree_configuration() {
    assert!(parse_dtb_from_ptr(0, 100).is_err());
    assert!(parse_dtb_from_ptr(0x4000, 0).is_err());
    let info = parse_dtb_from_ptr(0x4000, 0x1000).unwrap();
    assert_eq!(info.memory_regions, vec![DtbMemoryRegion { base_address: 0x4000_0000, size: 0x4000_0000 }]);
    assert_eq!(info.device_infos[0].compatible, "arm,pl011");
    assert_eq!(info.device_infos[1].interrupt, Some(27));
    assert_eq!(match_driver("arm,pl011"), DriverMatch::Pl011Uart);
    assert_eq!(match_driver("arm,cortex-a15-global-timer"), DriverMatch::GlobalTimer);
    assert_eq!(match_driver("ns16550a"), DriverMatch::Unsupported);
    assert_eq!(initialize_karnal64_from_dtb(&info), Ok(()));
    assert_eq!(initialize_dtb_and_karnal64(0x4000, 0x1000), 0);
    assert_eq!(initialize_dtb_and_karnal64(0, 0x1000), -3);
}

#[test]
fn panic_console_filters_non_ascii() {
    assert_eq!(panic_console_bytes("ok\n"), b"ok\n".to_vec());
    assert_eq!(panic_console_bytes("ğ"), b"..".to_vec());
}

#[test]
fn tick_readings_never_go_down() {
    let mut c = TickCounter { count: 5 };
    let mut last = ticks(&c);
    for _ in 0..3 {
        c.on_timer_interrupt();
        let now = ticks(&c);
        assert!(now >= last);
        last = now;
    }
    assert_eq!(last, 8);
}

#[test]
fn user_memory_pages_take_consecutive_frames() {
    let mut m = mmu();
    let a = m.allocate_user_memory(0x4000).unwrap();
    for k in 0..4u64 {
        assert_eq!(m.lookup_vaddr_phys(a + k * 0x1000), Ok(mapped(HEAP + 0x1000 + k * 0x1000)));
    }
    assert_eq!(m.free_user_memory(a, 0x4000), Ok(()));
    assert_eq!(m.free_user_memory(a, 0x1000), Err(MmuKError::BadAddress));
}
