//! LoongArch address arithmetic, page-table entry flags, the root page
//! table and the page-fault policy.
use vstd::prelude::*;
use crate::karnal::KError;

verus! {

/// The page size: 4 KiB.
pub const PAGE_SIZE: usize = 4096;
/// Entries in one page-table page.
pub const PAGE_TABLE_ENTRIES: usize = 512;

/// Whether `a` is a multiple of the page size.
pub open spec fn page_aligned(a: u64) -> bool {
    a % 4096 == 0
}

/// `a` rounded down to a page boundary.
pub open spec fn align_down(a: u64) -> int {
    a - a % 4096
}

/// `a` rounded up to a page boundary.
pub open spec fn align_up(a: u64) -> int {
    if a % 4096 == 0 { a as int } else { align_down(a) + 4096 }
}

proof fn lemma_low_bits(a: u64)
    ensures
        a & 4095u64 == a % 4096,
        a & !4095u64 == a - a % 4096,
{
    assert(a & 4095u64 == a % 4096 && a & !4095u64 == a - a % 4096) by (bit_vector);
}

/// A physical address.
#[derive(Debug, Copy, Clone, PartialEq, Eq, Structural)]
pub struct PhysAddr(pub u64);

/// A virtual address.
#[derive(Debug, Copy, Clone, PartialEq, Eq, Structural)]
pub struct VirtAddr(pub u64);

impl VirtAddr {
    /// The offset of the address inside its page.
    pub fn page_offset(&self) -> (r: usize)
        ensures
            r == self.0 % 4096,
    {
        proof { lemma_low_bits(self.0); }
        (self.0 & 4095u64) as usize
    }

    /// The start of the page that holds the address.
    pub fn page_align_down(&self) -> (r: VirtAddr)
        ensures
            r.0 == align_down(self.0),
    {
        proof { lemma_low_bits(self.0); }
        VirtAddr(self.0 & !4095u64)
    }

    /// The first page boundary at or above the address.
    pub fn page_align_up(&self) -> (r: VirtAddr)
        requires
            align_up(self.0) <= u64::MAX,
        ensures
            r.0 == align_up(self.0),
    {
        let aligned = self.page_align_down();
        if aligned.0 == self.0 {
            aligned
        } else {
            VirtAddr(aligned.0 + 4096)
        }
    }

    /// The address `offset` bytes further on.
    pub fn add_offset(&self, offset: usize) -> (r: VirtAddr)
        requires
            self.0 + offset <= u64::MAX,
        ensures
            r.0 == self.0 + offset,
    {
        VirtAddr(self.0 + offset as u64)
    }
}

impl PhysAddr {
    /// The offset of the address inside its page.
    pub fn page_offset(&self) -> (r: usize)
        ensures
            r == self.0 % 4096,
    {
        proof { lemma_low_bits(self.0); }
        (self.0 & 4095u64) as usize
    }

    /// The start of the page that holds the address.
    pub fn page_align_down(&self) -> (r: PhysAddr)
        ensures
            r.0 == align_down(self.0),
    {
        proof { lemma_low_bits(self.0); }
        PhysAddr(self.0 & !4095u64)
    }

    /// The address `offset` bytes further on.
    pub fn add_offset(&self, offset: usize) -> (r: PhysAddr)
        requires
            self.0 + offset <= u64::MAX,
        ensures
            r.0 == self.0 + offset,
    {
        PhysAddr(self.0 + offset as u64)
    }
}

/// Rounding down gives a page boundary at or below the address, less than
/// a page away; rounding up gives the first page boundary at or above it;
/// both leave an aligned address unchanged.
pub proof fn lemma_alignment(a: u64)
    ensures
        align_down(a) <= a < align_down(a) + 4096,
        align_down(a) % 4096 == 0,
        a <= align_up(a) < a + 4096,
        align_up(a) % 4096 == 0,
        page_aligned(a) ==> align_down(a) == a && align_up(a) == a,
{
}

/// The individual bits of a LoongArch page-table entry.
#[derive(Debug, Copy, Clone, PartialEq, Eq, Structural)]
pub enum LoongArchPteFlags {
    /// The entry is valid.
    Valid,
    /// The page may be read.
    Read,
    /// The page may be written.
    Write,
    /// The page may be executed.
    Executable,
    /// The translation survives address-space switches.
    Global,
    /// The page has been written.
    Dirty,
    /// The page has been accessed.
    Accessed,
    /// The page belongs to user space.
    User,
}

/// The bit of `flag` in an entry.
pub open spec fn flag_bit(flag: LoongArchPteFlags) -> u64 {
    match flag {
        LoongArchPteFlags::Valid => 1,
        LoongArchPteFlags::Read => 2,
        LoongArchPteFlags::Write => 4,
        LoongArchPteFlags::Executable => 8,
        LoongArchPteFlags::Global => 16,
        LoongArchPteFlags::Dirty => 32,
        LoongArchPteFlags::Accessed => 64,
        LoongArchPteFlags::User => 128,
    }
}

impl LoongArchPteFlags {
    /// The bit of this flag in an entry.
    pub fn bit(&self) -> (r: u64)
        ensures
            r == flag_bit(*self),
    {
        match self {
            LoongArchPteFlags::Valid => 1,
            LoongArchPteFlags::Read => 2,
            LoongArchPteFlags::Write => 4,
            LoongArchPteFlags::Executable => 8,
            LoongArchPteFlags::Global => 16,
            LoongArchPteFlags::Dirty => 32,
            LoongArchPteFlags::Accessed => 64,
            LoongArchPteFlags::User => 128,
        }
    }
}

proof fn lemma_low_byte(a: u64, b: u64)
    ensures
        a & 255u64 < 256,
        a < 256 && b < 256 ==> a | b < 256,
{
    assert(a & 255u64 < 256 && (a < 256 && b < 256 ==> a | b < 256)) by (bit_vector);
}

/// A set of entry flags; only the eight defined bits can be set.
#[derive(Debug, Copy, Clone)]
pub struct PteFlags {
    bits: u64,
}

impl PteFlags {
    /// The flags as an entry's low bits.
    pub closed spec fn spec_bits(self) -> u64 {
        self.bits
    }

    #[verifier::type_invariant]
    spec fn only_defined_bits(self) -> bool {
        self.bits < 256
    }

    /// No flag.
    pub fn empty() -> (r: Self)
        ensures
            r.spec_bits() == 0,
    {
        PteFlags { bits: 0 }
    }

    /// Exactly `flag`.
    pub fn from_flag(flag: LoongArchPteFlags) -> (r: Self)
        ensures
            r.spec_bits() == flag_bit(flag),
    {
        PteFlags { bits: flag.bit() }
    }

    /// The flags of `bits` that are defined; the others are dropped.
    pub fn from_bits_truncate(bits: u64) -> (r: Self)
        ensures
            r.spec_bits() == bits & 255,
    {
        proof { lemma_low_byte(bits, 0); }
        PteFlags { bits: bits & 255 }
    }

    /// The flags as an entry's low bits.
    pub fn bits(&self) -> (r: u64)
        ensures
            r == self.spec_bits(),
            r < 256,
    {
        proof { use_type_invariant(self); }
        self.bits
    }

    /// The flags of either set.
    pub fn union(&self, other: PteFlags) -> (r: Self)
        ensures
            r.spec_bits() == self.spec_bits() | other.spec_bits(),
    {
        proof {
            use_type_invariant(self);
            use_type_invariant(&other);
        }
        let a = self.bits;
        let b = other.bits;
        proof { lemma_low_byte(a, b); }
        PteFlags { bits: a | b }
    }

    /// Whether every flag of `other` is set.
    pub fn contains(&self, other: PteFlags) -> (r: bool)
        ensures
            r == (self.spec_bits() & other.spec_bits() == other.spec_bits()),
    {
        self.bits & other.bits == other.bits
    }
}

/// The bit of a valid entry.
pub const PTE_VALID: u64 = 1;

/// The root page-table slot that translates `vaddr`: bits 30..38.
pub open spec fn root_index(vaddr: u64) -> int {
    ((vaddr >> 30u64) & 0x1FFu64) as int
}

proof fn lemma_root_index_range(vaddr: u64)
    ensures
        0 <= root_index(vaddr) < 512,
{
    assert((vaddr >> 30u64) & 0x1FFu64 < 512) by (bit_vector);
}

/// The entry a mapping of the page at `paddr` with `flags` stores.
pub open spec fn mapping_entry(paddr: u64, flags: u64) -> u64 {
    paddr | flags
}

/// The physical address `vaddr` translates to through `entry`, if the entry
/// is valid: the entry's frame plus the offset inside the page.
pub open spec fn translate_entry(entry: u64, vaddr: u64) -> Option<u64> {
    if entry & 1 != 0 {
        Some(((entry & !4095u64) + vaddr % 4096) as u64)
    } else {
        None
    }
}

/// The root page table: 512 entries, each covering 1 GiB of virtual space.
#[derive(Debug)]
pub struct PageTable {
    pub entries: [u64; 512],
}

impl PageTable {
    /// The physical address `vaddr` translates to in this table, if any.
    pub open spec fn translation(&self, vaddr: u64) -> Option<u64> {
        translate_entry(self.entries@[root_index(vaddr)], vaddr)
    }

    /// A table with every entry zero (invalid).
    pub fn new() -> (r: Result<Self, KError>)
        ensures
            r is Ok,
            r matches Ok(t) ==> forall|i: int| 0 <= i < 512 ==> #[trigger] t.entries@[i] == 0,
    {
        Ok(PageTable { entries: [0u64; 512] })
    }

    fn walk_index(vaddr: VirtAddr) -> (r: usize)
        ensures
            r == root_index(vaddr.0),
            r < 512,
    {
        let v = vaddr.0;
        proof { lemma_root_index_range(v); }
        ((v >> 30u64) & 0x1FFu64) as usize
    }

    /// Maps the page at `vaddr` to the frame at `paddr` with `flags`.
    /// Both addresses must be page aligned, else `InvalidArgument` and the
    /// table is unchanged.
    pub fn map_page(&mut self, vaddr: VirtAddr, paddr: PhysAddr, flags: PteFlags) -> (r: Result<(), KError>)
        ensures
            r is Ok <==> page_aligned(vaddr.0) && page_aligned(paddr.0),
            r is Err ==> r == Err::<(), KError>(KError::InvalidArgument) && final(self).entries@ == old(self).entries@,
            r is Ok ==> final(self).entries@ == old(self).entries@.update(
                root_index(vaddr.0), mapping_entry(paddr.0, flags.spec_bits())),
    {
        if vaddr.page_offset() != 0 || paddr.page_offset() != 0 {
            return Err(KError::InvalidArgument);
        }
        let idx = Self::walk_index(vaddr);
        let value = paddr.0 | flags.bits();
        self.entries[idx] = value;
        Ok(())
    }

    /// Marks the entry that translates `vaddr` invalid. `vaddr` must be page
    /// aligned, else `InvalidArgument` and the table is unchanged.
    pub fn unmap_page(&mut self, vaddr: VirtAddr) -> (r: Result<(), KError>)
        ensures
            r is Ok <==> page_aligned(vaddr.0),
            r is Err ==> r == Err::<(), KError>(KError::InvalidArgument) && final(self).entries@ == old(self).entries@,
            r is Ok ==> final(self).entries@ == old(self).entries@.update(
                root_index(vaddr.0), old(self).entries@[root_index(vaddr.0)] & !1u64),
    {
        if vaddr.page_offset() != 0 {
            return Err(KError::InvalidArgument);
        }
        let idx = Self::walk_index(vaddr);
        let value = self.entries[idx] & !PTE_VALID;
        self.entries[idx] = value;
        Ok(())
    }

    /// The physical address `vaddr` translates to, or `None` when its entry
    /// is invalid.
    pub fn translate(&self, vaddr: VirtAddr) -> (r: Option<PhysAddr>)
        ensures
            r matches Some(p) ==> self.translation(vaddr.0) == Some(p.0),
            r is None ==> self.translation(vaddr.0) is None,
    {
        let idx = Self::walk_index(vaddr);
        let entry = self.entries[idx];
        if entry & PTE_VALID != 0 {
            let frame = entry & !4095u64;
            let off = vaddr.0 & 4095u64;
            proof {
                lemma_low_bits(vaddr.0);
                lemma_low_bits(entry);
            }
            Some(PhysAddr(frame + off))
        } else {
            None
        }
    }
}

/// A valid mapping translates every address of the mapped page to the
/// frame plus the offset inside the page.
pub proof fn lemma_mapping_translates(paddr: u64, flags: u64, vaddr: u64)
    requires
        page_aligned(paddr),
        flags < 256,
        flags & 1 == 1,
    ensures
        translate_entry(mapping_entry(paddr, flags), vaddr) == Some((paddr + vaddr % 4096) as u64),
{
    assert(paddr % 4096 == 0 && flags < 256 && flags & 1 == 1 ==>
        (paddr | flags) & 1 != 0 && (paddr | flags) & !4095u64 == paddr) by (bit_vector);
}

/// Clearing the valid bit of an entry leaves nothing to translate.
pub proof fn lemma_invalid_translates_nothing(entry: u64, vaddr: u64)
    ensures
        translate_entry(entry & !1u64, vaddr) is None,
{
    assert((entry & !1u64) & 1 == 0) by (bit_vector);
}

/// Mapping `vaddr` to the page-aligned `paddr` with flags that include the
/// valid bit makes every address of `vaddr`'s page translate to `paddr`
/// plus its offset, and leaves the translation of every address served by
/// another root slot as it was.
pub proof fn lemma_map_then_translate(before: PageTable, after: PageTable, vaddr: u64, paddr: u64, flags: u64)
    requires
        page_aligned(paddr),
        flags < 256,
        flags & 1 == 1,
        after.entries@ == before.entries@.update(root_index(vaddr), mapping_entry(paddr, flags)),
    ensures
        forall|k: u64| k < 4096 ==> #[trigger] after.translation((align_down(vaddr) + k) as u64)
            == Some((paddr + k) as u64),
        forall|w: u64| root_index(w) != root_index(vaddr) ==> #[trigger] after.translation(w) == before.translation(w),
{
    assert forall|k: u64| k < 4096 implies
        #[trigger] after.translation((align_down(vaddr) + k) as u64) == Some((paddr + k) as u64) by {
        assert(align_down(vaddr) + k <= u64::MAX);
        let w = (align_down(vaddr) + k) as u64;
        assert(k < 4096 && w == vaddr - vaddr % 4096 + k ==> root_index(w) == root_index(vaddr) && w % 4096 == k)
            by (bit_vector);
        lemma_mapping_translates(paddr, flags, w);
        lemma_root_index_range(vaddr);
    }
    assert forall|w: u64| root_index(w) != root_index(vaddr) implies
        #[trigger] after.translation(w) == before.translation(w) by {
        lemma_root_index_range(w);
        lemma_root_index_range(vaddr);
    }
}

/// Unmapping `vaddr` leaves no address served by its root slot with a
/// translation, and every other translation as it was.
pub proof fn lemma_unmap_then_translate(before: PageTable, after: PageTable, vaddr: u64)
    requires
        after.entries@ == before.entries@.update(root_index(vaddr), before.entries@[root_index(vaddr)] & !1u64),
        before.entries@.len() == 512,
    ensures
        forall|w: u64| root_index(w) == root_index(vaddr) ==> #[trigger] after.translation(w) is None,
        forall|w: u64| root_index(w) != root_index(vaddr) ==> #[trigger] after.translation(w) == before.translation(w),
{
    assert forall|w: u64| root_index(w) == root_index(vaddr) implies #[trigger] after.translation(w) is None by {
        lemma_root_index_range(vaddr);
        lemma_invalid_translates_nothing(before.entries@[root_index(vaddr)], w);
    }
    assert forall|w: u64| root_index(w) != root_index(vaddr) implies
        #[trigger] after.translation(w) == before.translation(w) by {
        lemma_root_index_range(w);
        lemma_root_index_range(vaddr);
    }
}

/// The physical address of the kernel's root page table.
pub const KERNEL_PAGE_TABLE_PHYS: u64 = 0x10_0000;
/// The address-space identifier and privilege bits the kernel's page-table
/// base register carries.
pub const KERNEL_PGDB_BITS: u64 = 3;
/// The CRMD bit that turns paging on.
pub const CRMD_PAGING_ENABLE: u64 = 0b100;

/// The control-register values that switch the MMU on.
#[derive(Debug, Copy, Clone, PartialEq, Eq, Structural)]
pub struct MmuControlWrites {
    /// The page-table base register: the kernel's root table and its bits.
    pub pgdb: u64,
    /// The mode register with paging enabled.
    pub crmd: u64,
}

/// Brings up memory management: the page-table base register points at the
/// kernel's root table, and the mode register, read as `current_crmd`,
/// gets its paging bit set. The platform layer writes both registers.
pub fn init_memory_management(current_crmd: u64) -> (r: Result<MmuControlWrites, KError>)
    ensures
        r == Ok::<MmuControlWrites, KError>(MmuControlWrites {
            pgdb: KERNEL_PAGE_TABLE_PHYS | KERNEL_PGDB_BITS,
            crmd: current_crmd | CRMD_PAGING_ENABLE,
        }),
{
    Ok(MmuControlWrites { pgdb: KERNEL_PAGE_TABLE_PHYS | KERNEL_PGDB_BITS, crmd: current_crmd | CRMD_PAGING_ENABLE })
}

/// The kinds of faulting access.
#[derive(Debug, Copy, Clone, PartialEq, Eq, Structural)]
pub enum FaultType {
    Read,
    Write,
    Execute,
    /// The access lacked a permission.
    ProtectionViolation,
    /// No page is mapped there.
    NotPresent,
}

/// The lowest address of the lazily allocated stack region.
pub const LAZY_STACK_BOTTOM: u64 = 0x1234_0000;
/// The end (exclusive) of the lazily allocated stack region.
pub const LAZY_STACK_TOP: u64 = 0x1234_F000;

/// Whether a fault at `vaddr` of kind `fault_type` is a write into the
/// lazily allocated stack region, the one fault the kernel resolves.
pub open spec fn resolvable_fault(vaddr: u64, fault_type: FaultType) -> bool {
    LAZY_STACK_BOTTOM <= vaddr < LAZY_STACK_TOP && fault_type == FaultType::Write
}

/// Handles a page fault: a write into the lazily allocated stack region is
/// resolved; any other fault is `BadAddress`.
pub fn handle_page_fault(fault_vaddr: VirtAddr, fault_type: FaultType) -> (r: Result<(), KError>)
    ensures
        resolvable_fault(fault_vaddr.0, fault_type) ==> r is Ok,
        !resolvable_fault(fault_vaddr.0, fault_type) ==> r == Err::<(), KError>(KError::BadAddress),
{
    if fault_vaddr.0 >= LAZY_STACK_BOTTOM && fault_vaddr.0 < LAZY_STACK_TOP && fault_type == FaultType::Write {
        Ok(())
    } else {
        Err(KError::BadAddress)
    }
}

/// What the trap layer reports of a page fault.
#[derive(Debug, Copy, Clone)]
pub struct ArchitectureFaultInfo {
    pub address: VirtAddr,
    pub kind: FaultType,
}

impl ArchitectureFaultInfo {
    /// The faulting virtual address.
    pub fn fault_address(&self) -> (r: VirtAddr)
        ensures
            r == self.address,
    {
        self.address
    }

    /// The kind of faulting access.
    pub fn fault_type(&self) -> (r: FaultType)
        ensures
            r == self.kind,
    {
        self.kind
    }
}

/// Handles the page fault the trap layer reports.
pub fn handle_arch_page_fault(fault_info: &ArchitectureFaultInfo) -> (r: Result<(), KError>)
    ensures
        resolvable_fault(fault_info.address.0, fault_info.kind) ==> r is Ok,
        !resolvable_fault(fault_info.address.0, fault_info.kind) ==> r == Err::<(), KError>(KError::BadAddress),
{
    let vaddr = fault_info.fault_address();
    let fault_type = fault_info.fault_type();
    handle_page_fault(vaddr, fault_type)
}

} // verus!
