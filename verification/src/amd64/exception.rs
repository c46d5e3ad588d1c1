//! amd64 interrupt descriptors, the decoding of page-fault error codes and
//! what the common interrupt entry does with each vector.
use vstd::prelude::*;

verus! {

pub const DIVIDE_ERROR_VECTOR: u8 = 0x0;
pub const BREAKPOINT_VECTOR: u8 = 0x3;
pub const INVALID_OPCODE_VECTOR: u8 = 0x6;
pub const DOUBLE_FAULT_VECTOR: u8 = 0x8;
pub const GENERAL_PROTECTION_FAULT_VECTOR: u8 = 0xD;
pub const PAGE_FAULT_VECTOR: u8 = 0xE;
/// The first vector of the primary interrupt controller's lines.
pub const PIC_1_OFFSET: u8 = 0x20;
/// IRQ0.
pub const TIMER_INTERRUPT_VECTOR: u8 = 0x20;
/// IRQ1.
pub const KEYBOARD_INTERRUPT_VECTOR: u8 = 0x21;
pub const SYSCALL_VECTOR: u8 = 0x80;
/// The kernel code segment selector.
pub const KERNEL_CODE_SELECTOR: u16 = 8;
/// Gate options: present, privilege 0, 64-bit interrupt gate.
pub const INTERRUPT_GATE_OPTIONS: u16 = 0b1000_1110_0000_0000;
/// Entries in the descriptor table.
pub const IDT_ENTRIES: usize = 256;

/// One interrupt descriptor.
#[derive(Debug, Copy, Clone, PartialEq, Eq, Structural)]
pub struct IdtEntry {
    /// Bits 0..15 of the handler address.
    pub handler_low: u16,
    /// The code segment selector the handler runs in.
    pub gdt_selector: u16,
    /// Gate type, privilege, presence and interrupt-stack index.
    pub options: u16,
    /// Bits 16..31 of the handler address.
    pub handler_middle: u16,
    /// Bits 32..63 of the handler address.
    pub handler_high: u32,
    pub reserved: u32,
}

/// The handler address a descriptor holds.
pub open spec fn handler_address(e: IdtEntry) -> u64 {
    (e.handler_low as u64) | ((e.handler_middle as u64) << 16u64) | ((e.handler_high as u64) << 32u64)
}

/// The options a gate gets for interrupt-stack index `ist_index`: indexes
/// 1 to 7 select a stack, anything else none.
pub open spec fn gate_options(ist_index: Option<u16>) -> u16 {
    match ist_index {
        Some(index) => if 1 <= index <= 7 { INTERRUPT_GATE_OPTIONS | index } else { INTERRUPT_GATE_OPTIONS },
        None => INTERRUPT_GATE_OPTIONS,
    }
}

impl IdtEntry {
    /// The empty descriptor.
    pub fn null() -> (r: Self)
        ensures
            r == (IdtEntry { handler_low: 0, gdt_selector: 0, options: 0, handler_middle: 0, handler_high: 0, reserved: 0 }),
    {
        IdtEntry { handler_low: 0, gdt_selector: 0, options: 0, handler_middle: 0, handler_high: 0, reserved: 0 }
    }

    /// Points the descriptor at `handler_fn` in segment
    /// `kernel_code_selector`, as an interrupt gate on interrupt stack
    /// `ist_index` when that is 1 to 7.
    pub fn set_handler_fn(&mut self, handler_fn: u64, kernel_code_selector: u16, ist_index: Option<u16>)
        ensures
            handler_address(*final(self)) == handler_fn,
            final(self).gdt_selector == kernel_code_selector,
            final(self).options == gate_options(ist_index),
            final(self).reserved == old(self).reserved,
    {
        self.handler_low = (handler_fn & 0xFFFF) as u16;
        self.handler_middle = ((handler_fn >> 16u64) & 0xFFFF) as u16;
        self.handler_high = (handler_fn >> 32u64) as u32;
        self.gdt_selector = kernel_code_selector;
        self.options = INTERRUPT_GATE_OPTIONS;
        if let Some(index) = ist_index {
            if index >= 1 && index <= 7 {
                self.options = self.options | index;
            }
        }
        let lo = self.handler_low;
        let mid = self.handler_middle;
        let hi = self.handler_high;
        assert(lo == (handler_fn & 0xFFFF) as u16 && mid == ((handler_fn >> 16u64) & 0xFFFF) as u16
            && hi == (handler_fn >> 32u64) as u32 ==>
            (lo as u64) | ((mid as u64) << 16u64) | ((hi as u64) << 32u64) == handler_fn) by (bit_vector);
    }

    /// Whether the descriptor has a handler.
    pub fn has_handler(&self) -> (r: bool)
        ensures
            r == !(self.handler_low == 0 && self.handler_middle == 0 && self.handler_high == 0),
    {
        !(self.handler_low == 0 && self.handler_middle == 0 && self.handler_high == 0)
    }
}

/// Whether a descriptor with no address bits set holds handler 0 and the
/// converse.
pub proof fn lemma_handler_zero(e: IdtEntry)
    ensures
        (e.handler_low == 0 && e.handler_middle == 0 && e.handler_high == 0) <==> handler_address(e) == 0,
{
    let lo = e.handler_low;
    let mid = e.handler_middle;
    let hi = e.handler_high;
    assert((lo == 0 && mid == 0 && hi == 0) <==>
        (lo as u64) | ((mid as u64) << 16u64) | ((hi as u64) << 32u64) == 0) by (bit_vector);
}

/// The interrupt descriptor table.
#[derive(Debug)]
pub struct InterruptDescriptorTable {
    pub entries: Vec<IdtEntry>,
}

impl InterruptDescriptorTable {
    /// A table of 256 empty descriptors.
    pub fn new() -> (r: Self)
        ensures
            r.entries@.len() == 256,
            forall|i: int| 0 <= i < 256 ==> #[trigger] handler_address(r.entries@[i]) == 0,
    {
        let mut entries: Vec<IdtEntry> = Vec::new();
        let mut i: usize = 0;
        while i < IDT_ENTRIES
            invariant
                i <= 256,
                entries@.len() == i,
                forall|j: int| 0 <= j < i ==> #[trigger] handler_address(entries@[j]) == 0,
            decreases 256 - i,
        {
            let e = IdtEntry::null();
            proof { lemma_handler_zero(e); }
            entries.push(e);
            i = i + 1;
        }
        InterruptDescriptorTable { entries }
    }

    /// Installs `handler_fn` at `vector` in the kernel code segment, on
    /// interrupt stack `ist_index` when that is 1 to 7.
    pub fn set_handler(&mut self, vector: u8, handler_fn: u64, ist_index: Option<u16>)
        requires
            old(self).entries@.len() == 256,
        ensures
            final(self).entries@.len() == 256,
            handler_address(final(self).entries@[vector as int]) == handler_fn,
            final(self).entries@[vector as int].gdt_selector == KERNEL_CODE_SELECTOR,
            final(self).entries@[vector as int].options == gate_options(ist_index),
            forall|i: int| 0 <= i < 256 && i != vector ==> #[trigger] final(self).entries@[i] == old(self).entries@[i],
    {
        let mut e = self.entries[vector as usize];
        e.set_handler_fn(handler_fn, KERNEL_CODE_SELECTOR, ist_index);
        self.entries.set(vector as usize, e);
    }

    /// Gives every descriptor that has no handler `handler_fn`.
    pub fn fill_unset(&mut self, handler_fn: u64)
        requires
            old(self).entries@.len() == 256,
        ensures
            final(self).entries@.len() == 256,
            forall|i: int| 0 <= i < 256 ==> #[trigger] handler_address(final(self).entries@[i])
                == if handler_address(old(self).entries@[i]) == 0 { handler_fn } else { handler_address(old(self).entries@[i]) },
            forall|i: int| 0 <= i < 256 && handler_address(old(self).entries@[i]) != 0
                ==> #[trigger] final(self).entries@[i] == old(self).entries@[i],
    {
        let mut i: usize = 0;
        while i < IDT_ENTRIES
            invariant
                i <= 256,
                self.entries@.len() == 256,
                forall|j: int| 0 <= j < i ==> #[trigger] handler_address(self.entries@[j])
                    == if handler_address(old(self).entries@[j]) == 0 { handler_fn } else { handler_address(old(self).entries@[j]) },
                forall|j: int| i <= j < 256 ==> #[trigger] self.entries@[j] == old(self).entries@[j],
                forall|j: int| 0 <= j < i && handler_address(old(self).entries@[j]) != 0
                    ==> #[trigger] self.entries@[j] == old(self).entries@[j],
            decreases 256 - i,
        {
            let mut e = self.entries[i];
            proof { lemma_handler_zero(e); }
            if !e.has_handler() {
                e.set_handler_fn(handler_fn, KERNEL_CODE_SELECTOR, None);
                self.entries.set(i, e);
            }
            i = i + 1;
        }
    }

    /// The table's size in bytes, less one, as the descriptor-table
    /// register takes it.
    pub fn limit(&self) -> (r: u16)
        ensures
            r == 4095,
    {
        4095
    }
}

/// The handlers the kernel installs.
#[derive(Debug, Copy, Clone)]
pub struct IdtHandlers {
    pub divide_error: u64,
    pub breakpoint: u64,
    pub invalid_opcode: u64,
    pub gp_fault: u64,
    pub page_fault: u64,
    pub double_fault: u64,
    pub syscall: u64,
    pub timer: u64,
    pub unknown: u64,
}

/// The table the kernel loads: each handler at its vector, the double
/// fault on interrupt stack 1, and `unknown` everywhere else.
pub fn init(handlers: &IdtHandlers) -> (r: InterruptDescriptorTable)
    requires
        handlers.divide_error != 0,
        handlers.breakpoint != 0,
        handlers.invalid_opcode != 0,
        handlers.gp_fault != 0,
        handlers.page_fault != 0,
        handlers.double_fault != 0,
        handlers.syscall != 0,
        handlers.timer != 0,
    ensures
        r.entries@.len() == 256,
        handler_address(r.entries@[DIVIDE_ERROR_VECTOR as int]) == handlers.divide_error,
        handler_address(r.entries@[BREAKPOINT_VECTOR as int]) == handlers.breakpoint,
        handler_address(r.entries@[INVALID_OPCODE_VECTOR as int]) == handlers.invalid_opcode,
        handler_address(r.entries@[GENERAL_PROTECTION_FAULT_VECTOR as int]) == handlers.gp_fault,
        handler_address(r.entries@[PAGE_FAULT_VECTOR as int]) == handlers.page_fault,
        handler_address(r.entries@[DOUBLE_FAULT_VECTOR as int]) == handlers.double_fault,
        r.entries@[DOUBLE_FAULT_VECTOR as int].options == gate_options(Some(1u16)),
        handler_address(r.entries@[SYSCALL_VECTOR as int]) == handlers.syscall,
        handler_address(r.entries@[TIMER_INTERRUPT_VECTOR as int]) == handlers.timer,
        forall|i: int| 0 <= i < 256 && i != 0 && i != 3 && i != 6 && i != 8 && i != 0xD && i != 0xE && i != 0x20
            && i != 0x80 ==> #[trigger] handler_address(r.entries@[i]) == handlers.unknown,
{
    let mut idt = InterruptDescriptorTable::new();
    idt.set_handler(DIVIDE_ERROR_VECTOR, handlers.divide_error, None);
    idt.set_handler(BREAKPOINT_VECTOR, handlers.breakpoint, None);
    idt.set_handler(INVALID_OPCODE_VECTOR, handlers.invalid_opcode, None);
    idt.set_handler(GENERAL_PROTECTION_FAULT_VECTOR, handlers.gp_fault, None);
    idt.set_handler(PAGE_FAULT_VECTOR, handlers.page_fault, None);
    idt.set_handler(DOUBLE_FAULT_VECTOR, handlers.double_fault, Some(1));
    idt.set_handler(SYSCALL_VECTOR, handlers.syscall, None);
    idt.set_handler(TIMER_INTERRUPT_VECTOR, handlers.timer, None);
    idt.fill_unset(handlers.unknown);
    idt
}

/// The error code of a page fault.
#[derive(Debug, Copy, Clone, PartialEq, Eq, Structural)]
pub struct PageFaultErrorCode(pub u64);

impl PageFaultErrorCode {
    /// The page was present: a protection fault rather than a missing page.
    pub fn present(&self) -> (r: bool)
        ensures
            r == (self.0 & 1 != 0),
    {
        self.0 & 1 != 0
    }

    /// The access was a write.
    pub fn write(&self) -> (r: bool)
        ensures
            r == (self.0 & 2 != 0),
    {
        self.0 & 2 != 0
    }

    /// The access came from user mode.
    pub fn user(&self) -> (r: bool)
        ensures
            r == (self.0 & 4 != 0),
    {
        self.0 & 4 != 0
    }

    /// A reserved bit was set in a paging entry.
    pub fn reserved(&self) -> (r: bool)
        ensures
            r == (self.0 & 8 != 0),
    {
        self.0 & 8 != 0
    }

    /// The access was an instruction fetch.
    pub fn instruction_fetch(&self) -> (r: bool)
        ensures
            r == (self.0 & 16 != 0),
    {
        self.0 & 16 != 0
    }
}

/// What the common interrupt entry does with a vector.
#[derive(Debug, Copy, Clone, PartialEq, Eq, Structural)]
pub enum InterruptAction {
    /// Count the tick, rearm the timer, schedule, acknowledge IRQ0.
    TimerTick,
    /// Hand the keyboard its interrupt and acknowledge IRQ1.
    Keyboard,
    /// Note the breakpoint and resume.
    Breakpoint,
    /// Stop the kernel.
    Panic,
}

/// What the common interrupt entry does with `vector`. Faults that carry an
/// error code reach this entry without it and stop the kernel, as does the
/// system-call vector, which is served by its own entry, and every vector
/// without a handler.
pub open spec fn interrupt_action(vector: u8) -> InterruptAction {
    if vector == TIMER_INTERRUPT_VECTOR {
        InterruptAction::TimerTick
    } else if vector == KEYBOARD_INTERRUPT_VECTOR {
        InterruptAction::Keyboard
    } else if vector == BREAKPOINT_VECTOR {
        InterruptAction::Breakpoint
    } else {
        InterruptAction::Panic
    }
}

/// The timer (0x20) ticks, the keyboard (0x21) reads its key, the
/// breakpoint (3) reports and resumes, and every other vector stops the
/// kernel.
pub proof fn lemma_interrupt_vectors(vector: u8)
    ensures
        vector == 0x20 ==> interrupt_action(vector) == InterruptAction::TimerTick,
        vector == 0x21 ==> interrupt_action(vector) == InterruptAction::Keyboard,
        vector == 0x3 ==> interrupt_action(vector) == InterruptAction::Breakpoint,
        vector != 0x20 && vector != 0x21 && vector != 0x3 ==> interrupt_action(vector) == InterruptAction::Panic,
{
}

/// Decides what the common interrupt entry does with `vector`.
pub fn common_interrupt_handler(vector: u8) -> (r: InterruptAction)
    ensures
        r == interrupt_action(vector),
        vector == 0x20 ==> r == InterruptAction::TimerTick,
        vector == 0x21 ==> r == InterruptAction::Keyboard,
        vector == 0x3 ==> r == InterruptAction::Breakpoint,
        vector != 0x20 && vector != 0x21 && vector != 0x3 ==> r == InterruptAction::Panic,
{
    proof { lemma_interrupt_vectors(vector); }
    if vector == TIMER_INTERRUPT_VECTOR {
        InterruptAction::TimerTick
    } else if vector == KEYBOARD_INTERRUPT_VECTOR {
        InterruptAction::Keyboard
    } else if vector == BREAKPOINT_VECTOR {
        InterruptAction::Breakpoint
    } else {
        InterruptAction::Panic
    }
}

} // verus!
