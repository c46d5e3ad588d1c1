//! AArch64 three-level translation tables (4 KiB granule, 39-bit virtual
//! addresses), the physical frame allocator, user virtual-range allocation,
//! user memory and shared memory objects.
use vstd::prelude::*;
use crate::physmem::{PhysMemory, FRAME_SIZE, WORDS_PER_FRAME, PHYS_LIMIT, word_index,
    lemma_entries_distinct, lemma_word_index_in_range};

verus! {

/// Kernel errors, with the MMU-specific codes of this layer.
#[derive(Debug, Copy, Clone, PartialEq, Eq)]
pub enum KError {
    PermissionDenied,
    NotFound,
    InvalidArgument,
    Interrupted,
    BadHandle,
    Busy,
    OutOfMemory,
    /// An invalid memory address (user pointer or virtual address).
    BadAddress,
    /// The resource already exists (for instance an address already mapped).
    AlreadyExists,
    NotSupported,
    NoMessage,
    InternalError,
    /// No room left in a page table.
    PageTableFull,
    /// The address is not aligned to a page.
    AddressNotPageAligned,
}

impl KError {
    /// The negative code handed back to user space.
    pub fn code(&self) -> (r: i64)
        ensures
            r == match *self {
                KError::PermissionDenied => -1,
                KError::NotFound => -2,
                KError::InvalidArgument => -3,
                KError::Interrupted => -4,
                KError::BadHandle => -9,
                KError::Busy => -11,
                KError::OutOfMemory => -12,
                KError::BadAddress => -14,
                KError::AlreadyExists => -17,
                KError::NotSupported => -38,
                KError::NoMessage => -61,
                KError::InternalError => -255,
                KError::PageTableFull => -100,
                KError::AddressNotPageAligned => -101,
            },
    {
        match *self {
            KError::PermissionDenied => -1,
            KError::NotFound => -2,
            KError::InvalidArgument => -3,
            KError::Interrupted => -4,
            KError::BadHandle => -9,
            KError::Busy => -11,
            KError::OutOfMemory => -12,
            KError::BadAddress => -14,
            KError::AlreadyExists => -17,
            KError::NotSupported => -38,
            KError::NoMessage => -61,
            KError::InternalError => -255,
            KError::PageTableFull => -100,
            KError::AddressNotPageAligned => -101,
        }
    }
}

/// Identifier of a task.
#[derive(Debug, Copy, Clone, PartialEq, Eq, Hash)]
pub struct KTaskId(pub u64);

/// Identifier of a thread.
#[derive(Debug, Copy, Clone, PartialEq, Eq, Hash)]
pub struct KThreadId(pub u64);

/// Handle of a kernel resource.
#[derive(Debug, Copy, Clone, PartialEq, Eq, Hash)]
pub struct KHandle(pub u64);

/// Page (and frame) size.
pub const PAGE_SIZE: u64 = 0x1000;
/// Entries of one translation table.
pub const PAGE_TABLE_ENTRIES: usize = 512;

/// Descriptor is valid.
pub const PTE_VALID: u64 = 0x1;
/// At levels 1 and 2: the descriptor points to a next-level table.
pub const PTE_TABLE: u64 = 0x2;
/// At level 3: the descriptor maps a page.
pub const PTE_PAGE: u64 = 0x2;
/// MAIR index 0: device or non-cacheable memory.
pub const PTE_ATTR_INDEX_0_NOCACHE: u64 = 0x0;
/// MAIR index 1: normal write-back cacheable memory.
pub const PTE_ATTR_INDEX_1_CACHED: u64 = 0x4;
/// Non-secure memory.
pub const PTE_NON_SECURE: u64 = 0x20;
/// EL1 read/write, EL0 no access.
pub const PTE_AP_EL1_RW_EL0_NO: u64 = 0x0;
/// EL1 and EL0 read/write.
pub const PTE_AP_EL1_RW_EL0_RW: u64 = 0x40;
/// EL1 read-only, EL0 no access.
pub const PTE_AP_EL1_RO_EL0_NO: u64 = 0x80;
/// EL1 and EL0 read-only.
pub const PTE_AP_EL1_RO_EL0_RO: u64 = 0xC0;
/// Not shareable.
pub const PTE_SH_NON: u64 = 0x0;
/// Outer shareable.
pub const PTE_SH_OUTER: u64 = 0x200;
/// Inner shareable.
pub const PTE_SH_INNER: u64 = 0x300;
/// Access flag.
pub const PTE_AF: u64 = 0x400;
/// Non-secure table (table descriptors).
pub const PTE_NSTABLE: u64 = 0x800;
/// Privileged execute-never.
pub const PTE_PXN: u64 = 0x20_0000_0000_0000;
/// Unprivileged execute-never.
pub const PTE_UXN: u64 = 0x40_0000_0000_0000;
/// User read/write data: VALID | PAGE | ATTR1 | AP RW/RW | SH_INNER | AF | UXN.
pub const USER_DATA_FLAGS: u64 = 0x40_0000_0000_0747;
/// User code: VALID | PAGE | ATTR1 | AP (value 0x40) | SH_INNER | AF | PXN.
pub const USER_CODE_FLAGS: u64 = 0x20_0000_0000_0747;
/// Device memory: VALID | PAGE | ATTR0 | AP EL1 only | SH_OUTER | AF | PXN | UXN.
pub const DEVICE_FLAGS: u64 = 0x60_0000_0000_0603;
/// Flag bits of a descriptor that points to a new table.
pub const TABLE_DESCRIPTOR_FLAGS: u64 = 0x823;

/// The flag combinations are the ORs of their parts.
pub proof fn lemma_flag_combinations()
    ensures
        USER_DATA_FLAGS == PTE_VALID | PTE_PAGE | PTE_ATTR_INDEX_1_CACHED | PTE_AP_EL1_RW_EL0_RW
            | PTE_SH_INNER | PTE_AF | PTE_UXN,
        USER_CODE_FLAGS == PTE_VALID | PTE_PAGE | PTE_ATTR_INDEX_1_CACHED | PTE_AP_EL1_RW_EL0_RW
            | PTE_SH_INNER | PTE_AF | PTE_PXN,
        DEVICE_FLAGS == PTE_VALID | PTE_PAGE | PTE_ATTR_INDEX_0_NOCACHE | PTE_AP_EL1_RW_EL0_NO
            | PTE_SH_OUTER | PTE_AF | PTE_PXN | PTE_UXN,
        TABLE_DESCRIPTOR_FLAGS == PTE_TABLE | PTE_VALID | PTE_NON_SECURE | PTE_NSTABLE,
{
    assert(0x40_0000_0000_0747u64 == 1u64 | 2u64 | 4u64 | 0x40u64 | 0x300u64 | 0x400u64 | 0x40_0000_0000_0000u64) by (bit_vector);
    assert(0x20_0000_0000_0747u64 == 1u64 | 2u64 | 4u64 | 0x40u64 | 0x300u64 | 0x400u64 | 0x20_0000_0000_0000u64) by (bit_vector);
    assert(0x60_0000_0000_0603u64 == 1u64 | 2u64 | 0u64 | 0u64 | 0x200u64 | 0x400u64 | 0x20_0000_0000_0000u64 | 0x40_0000_0000_0000u64) by (bit_vector);
    assert(0x823u64 == 2u64 | 1u64 | 0x20u64 | 0x800u64) by (bit_vector);
}

/// One translation table: 512 descriptors.
#[derive(Copy, Clone)]
pub struct PageTable {
    pub entries: [u64; 512],
}

impl PageTable {
    /// A table whose descriptors are all zero.
    pub fn new() -> (r: Self)
        ensures
            forall|i: int| 0 <= i < 512 ==> #[trigger] r.entries@[i] == 0,
    {
        PageTable { entries: [0u64; 512] }
    }

    /// The descriptor at `index`, if the index is inside the table.
    pub fn entry(&self, index: usize) -> (r: Option<&u64>)
        ensures
            index < 512 ==> r == Some(&self.entries@[index as int]),
            index >= 512 ==> r is None,
    {
        if index < PAGE_TABLE_ENTRIES {
            Some(&self.entries[index])
        } else {
            None
        }
    }

    /// Mutable access to the descriptor at `index`, if the index is inside
    /// the table.
    pub fn entry_mut(&mut self, index: usize) -> (r: Option<&mut u64>)
        ensures
            index >= 512 ==> r is None && final(self).entries@ == old(self).entries@,
            index < 512 ==> r is Some && *r->0 == old(self).entries@[index as int]
                && final(self).entries@ == old(self).entries@.update(index as int, *final(r->0)),
    {
        if index < PAGE_TABLE_ENTRIES {
            Some(&mut self.entries[index])
        } else {
            None
        }
    }

    /// Whether every descriptor is zero.
    pub fn is_empty(&self) -> (r: bool)
        ensures
            r == forall|i: int| 0 <= i < 512 ==> #[trigger] self.entries@[i] == 0,
    {
        let mut i: usize = 0;
        while i < PAGE_TABLE_ENTRIES
            invariant
                i <= 512,
                forall|j: int| 0 <= j < i ==> #[trigger] self.entries@[j] == 0,
            decreases 512 - i,
        {
            if self.entries[i] != 0 {
                return false;
            }
            i = i + 1;
        }
        true
    }
}

} // verus!

verus! {

/// The physical frame allocator: hands out the frames of
/// `[heap_start, heap_end)` in increasing order; freeing is a no-op.
pub struct Pfa {
    pub heap_start: u64,
    pub heap_end: u64,
    pub next_free: u64,
}

impl Pfa {
    /// An allocator over `heap_size` bytes starting at `heap_start`.
    pub fn init(heap_start: u64, heap_size: u64) -> (r: Self)
        requires
            heap_start + heap_size <= u64::MAX,
        ensures
            r.heap_start == heap_start,
            r.heap_end == heap_start + heap_size,
            r.next_free == heap_start,
    {
        Pfa { heap_start, heap_end: heap_start + heap_size, next_free: heap_start }
    }

    /// Whether another frame fits below the end of the heap.
    pub open spec fn has_frame(&self) -> bool {
        self.next_free <= self.heap_end && self.heap_end - self.next_free >= PAGE_SIZE
    }

    /// The next 4 KiB frame, or `None` when the heap is used up.
    pub fn allocate_frame(&mut self) -> (r: Option<u64>)
        ensures
            old(self).has_frame() ==> {
                &&& r == Some(old(self).next_free)
                &&& final(self).next_free == old(self).next_free + PAGE_SIZE
                &&& final(self).heap_start == old(self).heap_start
                &&& final(self).heap_end == old(self).heap_end
            },
            !old(self).has_frame() ==> r is None && *final(self) == *old(self),
    {
        if self.next_free <= self.heap_end && self.heap_end - self.next_free >= PAGE_SIZE {
            let frame = self.next_free;
            self.next_free = self.next_free + PAGE_SIZE;
            Some(frame)
        } else {
            None
        }
    }

    /// How many frames the allocator can still hand out.
    pub open spec fn frames_left(&self) -> int {
        if self.next_free <= self.heap_end { (self.heap_end - self.next_free) / (PAGE_SIZE as int) } else { 0 }
    }

    /// Frees a frame; this allocator never reuses frames.
    pub fn free_frame(&self, frame_addr: u64) {
    }
}

/// Index of the descriptor selected by `va` in the table at `level`
/// (0 = level 1 table, 1 = level 2, 2 = level 3).
pub open spec fn arm_index(va: u64, level: int) -> u64 {
    if level == 0 {
        (va >> 30u64) & 0x1FF
    } else if level == 1 {
        (va >> 21u64) & 0x1FF
    } else {
        (va >> 12u64) & 0x1FF
    }
}

proof fn lemma_arm_index_bound(va: u64, level: int)
    ensures
        arm_index(va, level) < 512,
{
    assert((va >> 30u64) & 0x1FF < 512) by (bit_vector);
    assert((va >> 21u64) & 0x1FF < 512) by (bit_vector);
    assert((va >> 12u64) & 0x1FF < 512) by (bit_vector);
}

fn arm_index_exec(va: u64, level: u64) -> (r: u64)
    ensures
        r == arm_index(va, level as int),
        r < 512,
{
    proof { lemma_arm_index_bound(va, level as int); }
    if level == 0 {
        (va >> 30u64) & 0x1FF
    } else if level == 1 {
        (va >> 21u64) & 0x1FF
    } else {
        (va >> 12u64) & 0x1FF
    }
}

/// The next-level table (or page) address held by a descriptor.
pub open spec fn desc_addr(e: u64) -> u64 {
    e & !0xFFFu64
}

/// The level-3 descriptor reached for `va` from the table at `table`
/// (`level` 0..2), or the error the lookup reports.
pub open spec fn lookup_at(mem: &PhysMemory, table: u64, va: u64, level: nat) -> Result<u64, KError>
    decreases 3 - level,
{
    if level >= 3 {
        Err(KError::InternalError)
    } else if !mem.frame_ok(table) {
        Err(KError::BadAddress)
    } else {
        let e = mem.entry(table, arm_index(va, level as int) as int);
        if level < 2 {
            if e & PTE_VALID == 0 || e & PTE_TABLE == 0 {
                Err(KError::BadAddress)
            } else {
                lookup_at(mem, desc_addr(e), va, level + 1)
            }
        } else if e & PTE_VALID == 0 || e & PTE_PAGE == 0 {
            Err(KError::BadAddress)
        } else {
            Ok(e)
        }
    }
}

/// The level-3 table reached for `va` without creating tables.
pub open spec fn l3_table_at(mem: &PhysMemory, table: u64, va: u64, level: nat) -> Result<u64, KError>
    decreases 3 - level,
{
    if level >= 3 {
        Err(KError::InternalError)
    } else if !mem.frame_ok(table) {
        Err(KError::BadAddress)
    } else if level == 2 {
        Ok(table)
    } else {
        let e = mem.entry(table, arm_index(va, level as int) as int);
        if e & PTE_VALID == 0 || e & PTE_TABLE == 0 {
            Err(KError::BadAddress)
        } else {
            l3_table_at(mem, desc_addr(e), va, level + 1)
        }
    }
}

/// The result of `lookup_page` for the tables rooted at `l1`.
pub open spec fn lookup_spec(mem: &PhysMemory, l1: u64, va: u64) -> Result<u64, KError> {
    if va % PAGE_SIZE != 0 {
        Err(KError::AddressNotPageAligned)
    } else {
        lookup_at(mem, l1, va, 0)
    }
}

/// Step `k` of an AArch64 walk path is a valid table descriptor pointing
/// to `path[k + 1]`.
pub open spec fn arm_link_ok(mem: &PhysMemory, path: Seq<u64>, va: u64, k: int) -> bool {
    let e = mem.entry(path[k], arm_index(va, k) as int);
    &&& e & PTE_VALID != 0
    &&& e & PTE_TABLE != 0
    &&& desc_addr(e) == path[k + 1]
}

/// `path` lists the tables a walk for `va` visits from level 0 to `upto`.
pub open spec fn arm_path_linked(mem: &PhysMemory, path: Seq<u64>, va: u64, upto: int) -> bool {
    &&& path.len() == upto + 1
    &&& forall|k: int| 0 <= k <= upto ==> mem.frame_ok(#[trigger] path[k])
    &&& forall|k: int| 0 <= k < upto ==> #[trigger] arm_link_ok(mem, path, va, k)
}

/// The tables the descriptors of `mem` lead a walk for `va` through, from
/// the level-1 table `l1` down to the level-3 table.
pub open spec fn table_path(mem: &PhysMemory, l1: u64, va: u64) -> Seq<u64> {
    let t1 = desc_addr(mem.entry(l1, arm_index(va, 0) as int));
    let t2 = desc_addr(mem.entry(t1, arm_index(va, 1) as int));
    seq![l1, t1, t2]
}

/// `va` can be mapped without a new table: its level-1 and level-2
/// descriptors lead to existing tables, and its level-3 descriptor is not
/// valid.
pub open spec fn slot_free(mem: &PhysMemory, l1: u64, va: u64) -> bool {
    let p = table_path(mem, l1, va);
    &&& arm_path_linked(mem, p, va, 2)
    &&& mem.entry(p[2], arm_index(va, 2) as int) & PTE_VALID == 0
}

/// The level-3 descriptor of `a` is none of the descriptors that the walk
/// for `b` reads.
pub open spec fn leaf_apart(mem: &PhysMemory, l1: u64, a: u64, b: u64) -> bool {
    let pa = table_path(mem, l1, a);
    let pb = table_path(mem, l1, b);
    &&& (pa[2] != pb[0] || arm_index(a, 2) != arm_index(b, 0))
    &&& (pa[2] != pb[1] || arm_index(a, 2) != arm_index(b, 1))
    &&& (pa[2] != pb[2] || arm_index(a, 2) != arm_index(b, 2))
}

/// The `k`-th page of the range starting at `start`.
pub open spec fn page_va(start: u64, k: int) -> u64 {
    (start + k * PAGE_SIZE) as u64
}

/// Every page of the `num` pages at `start` can take the frame
/// `frames[first + k]` without a new table and without one page's new
/// descriptor landing on a descriptor another page's walk reads.
pub open spec fn range_ready(mem: &PhysMemory, l1: u64, start: u64, frames: Seq<u64>, first: int, num: int) -> bool {
    &&& start % PAGE_SIZE == 0
    &&& forall|k: int| 0 <= k < num ==> #[trigger] frames[first + k] % PAGE_SIZE == 0
    &&& forall|k: int| 0 <= k < num ==> #[trigger] slot_free(mem, l1, page_va(start, k))
    &&& forall|j: int, k: int| 0 <= j < num && 0 <= k < num && j != k ==>
        #[trigger] leaf_apart(mem, l1, page_va(start, j), page_va(start, k))
}

/// `f` can hold a new table: the allocator can hand it out below
/// `heap_end`, it is a frame of the memory, and none of the tables in
/// `used` is it.
pub open spec fn fresh_table_frame(mem: &PhysMemory, f: u64, heap_end: u64, used: Seq<u64>) -> bool {
    &&& f <= heap_end
    &&& heap_end - f >= PAGE_SIZE
    &&& mem.frame_ok(f)
    &&& !used.contains(f)
}

/// The walk for `va` from `l1` can reach a level-3 table: every table it
/// meets is a frame of the memory, and each table it has to create can
/// take the next frame handed out from `next_free`.
pub open spec fn walk_can_create(mem: &PhysMemory, l1: u64, va: u64, next_free: u64, heap_end: u64) -> bool {
    let e0 = mem.entry(l1, arm_index(va, 0) as int);
    let t1 = desc_addr(e0);
    let e1 = mem.entry(t1, arm_index(va, 1) as int);
    &&& mem.frame_ok(l1)
    &&& if e0 & PTE_VALID == 0 {
        &&& fresh_table_frame(mem, next_free, heap_end, seq![l1])
        &&& fresh_table_frame(mem, (next_free + PAGE_SIZE) as u64, heap_end, seq![l1, next_free])
    } else {
        &&& e0 & PTE_TABLE != 0
        &&& mem.frame_ok(t1)
        &&& if e1 & PTE_VALID == 0 {
            fresh_table_frame(mem, next_free, heap_end, seq![l1, t1])
        } else {
            &&& e1 & PTE_TABLE != 0
            &&& mem.frame_ok(desc_addr(e1))
        }
    }
}

/// A zero descriptor is not valid.
proof fn lemma_zero_entry_invalid()
    ensures
        0u64 & PTE_VALID == 0,
{
    assert(0u64 & 1u64 == 0u64) by (bit_vector);
}

/// Every page of the `n` pages at `start` is mapped through the tables
/// its descriptors lead to, and no page's level-3 descriptor is one the
/// walk of another page reads.
pub open spec fn range_mapped(mem: &PhysMemory, l1: u64, start: u64, n: int) -> bool {
    &&& start % PAGE_SIZE == 0
    &&& forall|k: int| 0 <= k < n ==> #[trigger] lookup_spec(mem, l1, page_va(start, k)) is Ok
        && arm_path_linked(mem, table_path(mem, l1, page_va(start, k)), page_va(start, k), 2)
    &&& forall|j: int, k: int| 0 <= j < n && 0 <= k < n && j != k ==>
        #[trigger] leaf_apart(mem, l1, page_va(start, j), page_va(start, k))
}

/// `n` consecutive frames starting at `first`.
pub open spec fn consecutive_frames(first: u64, n: int) -> Seq<u64> {
    Seq::new(n as nat, |k: int| (first + k * PAGE_SIZE) as u64)
}

/// `c` is one of the starts that `allocate_pages` tries for `n` pages.
pub open spec fn block_candidate(va: VmspaceAllocator, c: int, n: int) -> bool {
    let c0 = va.first_candidate(n * PAGE_SIZE);
    &&& c0 <= c
    &&& c + n * PAGE_SIZE <= va.end_vaddr
    &&& (c - c0) % (PAGE_SIZE as int) == 0
}

/// Writing the level-3 descriptor of `a` leaves the walk for `b`, its
/// level-3 descriptor and its lookup as they were.
proof fn lemma_slot_kept(m1: &PhysMemory, m2: &PhysMemory, l1: u64, a: u64, b: u64, v: u64)
    requires
        m1.wf(),
        m2.wf(),
        m2.base == m1.base,
        arm_path_linked(m1, table_path(m1, l1, a), a, 2),
        arm_path_linked(m1, table_path(m1, l1, b), b, 2),
        leaf_apart(m1, l1, a, b),
        m2.words@ == m1.words@.update(word_index(m1.base, table_path(m1, l1, a)[2], arm_index(a, 2) as int), v),
    ensures
        table_path(m2, l1, b) == table_path(m1, l1, b),
        arm_path_linked(m2, table_path(m1, l1, b), b, 2),
        m2.entry(table_path(m1, l1, b)[2], arm_index(b, 2) as int) == m1.entry(table_path(m1, l1, b)[2], arm_index(b, 2) as int),
        lookup_spec(m2, l1, b) == lookup_spec(m1, l1, b),
        slot_free(m1, l1, b) ==> slot_free(m2, l1, b),
{
    let pa = table_path(m1, l1, a);
    let pb = table_path(m1, l1, b);
    lemma_arm_index_bound(a, 2);
    lemma_arm_index_bound(b, 0);
    lemma_arm_index_bound(b, 1);
    lemma_arm_index_bound(b, 2);
    assert(m1.frame_ok(pa[2]));
    assert(m1.frame_ok(pb[0]));
    assert(m1.frame_ok(pb[1]));
    assert(m1.frame_ok(pb[2]));
    lemma_entries_distinct(m1, pa[2], arm_index(a, 2) as int, pb[0], arm_index(b, 0) as int);
    lemma_entries_distinct(m1, pa[2], arm_index(a, 2) as int, pb[1], arm_index(b, 1) as int);
    lemma_entries_distinct(m1, pa[2], arm_index(a, 2) as int, pb[2], arm_index(b, 2) as int);
    lemma_word_index_in_range(m1, pb[0], arm_index(b, 0) as int);
    lemma_word_index_in_range(m1, pb[1], arm_index(b, 1) as int);
    lemma_word_index_in_range(m1, pb[2], arm_index(b, 2) as int);
    assert(m2.entry(pb[0], arm_index(b, 0) as int) == m1.entry(pb[0], arm_index(b, 0) as int));
    assert(m2.entry(pb[1], arm_index(b, 1) as int) == m1.entry(pb[1], arm_index(b, 1) as int));
    assert(m2.entry(pb[2], arm_index(b, 2) as int) == m1.entry(pb[2], arm_index(b, 2) as int));
    assert(table_path(m2, l1, b) =~= pb);
    lemma_arm_path_kept(m1, m2, pb, b, 2);
    lemma_lookup_along_path(m1, pb, b, 0);
    lemma_lookup_along_path(m2, pb, b, 0);
}

/// Writing the level-3 descriptor of a free slot leaves the walk that leads
/// to it as it was.
proof fn lemma_own_path_kept(m1: &PhysMemory, m2: &PhysMemory, l1: u64, a: u64, v: u64)
    requires
        m1.wf(),
        m2.wf(),
        m2.base == m1.base,
        slot_free(m1, l1, a),
        m2.words@ == m1.words@.update(word_index(m1.base, table_path(m1, l1, a)[2], arm_index(a, 2) as int), v),
    ensures
        table_path(m2, l1, a) == table_path(m1, l1, a),
        arm_path_linked(m2, table_path(m1, l1, a), a, 2),
{
    let pa = table_path(m1, l1, a);
    lemma_arm_index_bound(a, 0);
    lemma_arm_index_bound(a, 1);
    lemma_arm_index_bound(a, 2);
    assert(m1.frame_ok(pa[0]));
    assert(m1.frame_ok(pa[1]));
    assert(m1.frame_ok(pa[2]));
    lemma_word_index_in_range(m1, pa[0], arm_index(a, 0) as int);
    lemma_word_index_in_range(m1, pa[1], arm_index(a, 1) as int);
    assert(arm_link_ok(m1, pa, a, 0));
    assert(arm_link_ok(m1, pa, a, 1));
    lemma_zero_entry_invalid();
    if word_index(m1.base, pa[0], arm_index(a, 0) as int) == word_index(m1.base, pa[2], arm_index(a, 2) as int) {
        assert(m1.entry(pa[0], arm_index(a, 0) as int) == m1.entry(pa[2], arm_index(a, 2) as int));
    }
    if word_index(m1.base, pa[1], arm_index(a, 1) as int) == word_index(m1.base, pa[2], arm_index(a, 2) as int) {
        assert(m1.entry(pa[1], arm_index(a, 1) as int) == m1.entry(pa[2], arm_index(a, 2) as int));
    }
    assert(m2.entry(pa[0], arm_index(a, 0) as int) == m1.entry(pa[0], arm_index(a, 0) as int));
    assert(m2.entry(pa[1], arm_index(a, 1) as int) == m1.entry(pa[1], arm_index(a, 1) as int));
    assert(table_path(m2, l1, a) =~= pa);
    lemma_arm_path_kept(m1, m2, pa, a, 2);
}

proof fn lemma_lookup_along_path(mem: &PhysMemory, path: Seq<u64>, va: u64, k: int)
    requires
        mem.wf(),
        arm_path_linked(mem, path, va, 2),
        0 <= k <= 2,
    ensures
        lookup_at(mem, path[k], va, k as nat) == lookup_at(mem, path[2], va, 2),
        l3_table_at(mem, path[k], va, k as nat) == Ok::<u64, KError>(path[2]),
    decreases 2 - k,
{
    assert(mem.frame_ok(path[k]));
    if k < 2 {
        assert(arm_link_ok(mem, path, va, k));
        lemma_lookup_along_path(mem, path, va, k + 1);
    }
}

proof fn lemma_arm_path_kept(old_mem: &PhysMemory, mem: &PhysMemory, path: Seq<u64>, va: u64, upto: int)
    requires
        old_mem.wf(),
        mem.wf(),
        mem.base == old_mem.base,
        mem.words@.len() == old_mem.words@.len(),
        arm_path_linked(old_mem, path, va, upto),
        0 <= upto <= 2,
        forall|k: int| 0 <= k < upto ==> mem.words@[word_index(old_mem.base, #[trigger] path[k], arm_index(va, k) as int)]
            == old_mem.words@[word_index(old_mem.base, path[k], arm_index(va, k) as int)],
    ensures
        arm_path_linked(mem, path, va, upto),
{
    assert forall|k: int| 0 <= k < upto implies #[trigger] arm_link_ok(mem, path, va, k) by {
        assert(arm_link_ok(old_mem, path, va, k));
        assert(old_mem.frame_ok(path[k]));
    }
    assert forall|k: int| 0 <= k <= upto implies mem.frame_ok(#[trigger] path[k]) by {
        assert(old_mem.frame_ok(path[k]));
    }
}

/// After clearing the level-3 descriptor of a linked path, the lookup of
/// `va` fails from every level of the path.
proof fn lemma_arm_cleared(old_mem: &PhysMemory, mem: &PhysMemory, path: Seq<u64>, va: u64, k: int)
    requires
        old_mem.wf(),
        mem.wf(),
        mem.base == old_mem.base,
        arm_path_linked(old_mem, path, va, 2),
        mem.words@ == old_mem.words@.update(word_index(old_mem.base, path[2], arm_index(va, 2) as int), 0),
        0 <= k <= 2,
    ensures
        lookup_at(mem, path[k], va, k as nat) == Err::<u64, KError>(KError::BadAddress),
    decreases 2 - k,
{
    let w = word_index(old_mem.base, path[2], arm_index(va, 2) as int);
    assert(old_mem.frame_ok(path[k]));
    lemma_arm_index_bound(va, k);
    lemma_arm_index_bound(va, 2);
    lemma_word_index_in_range(old_mem, path[k], arm_index(va, k) as int);
    assert(0u64 & PTE_VALID == 0) by (bit_vector);
    if k < 2 {
        assert(arm_link_ok(old_mem, path, va, k));
        let wk = word_index(old_mem.base, path[k], arm_index(va, k) as int);
        if wk == w {
            assert(mem.entry(path[k], arm_index(va, k) as int) == 0);
        } else {
            assert(mem.entry(path[k], arm_index(va, k) as int)
                == old_mem.entry(path[k], arm_index(va, k) as int));
            lemma_arm_cleared(old_mem, mem, path, va, k + 1);
        }
    } else {
        assert(mem.entry(path[2], arm_index(va, 2) as int) == 0);
    }
}

fn contains_u64(v: &Vec<u64>, x: u64) -> (r: bool)
    ensures
        r == v@.contains(x),
{
    let mut i: usize = 0;
    while i < v.len()
        invariant
            i <= v@.len(),
            forall|j: int| 0 <= j < i ==> v@[j] != x,
        decreases v@.len() - i,
    {
        if v[i] == x {
            assert(v@[i as int] == x);
            return true;
        }
        i = i + 1;
    }
    false
}

proof fn lemma_table_descriptor(frame: u64)
    requires
        frame % PAGE_SIZE == 0,
    ensures
        (frame | 0x823u64) & PTE_VALID != 0,
        (frame | 0x823u64) & PTE_TABLE != 0,
        desc_addr(frame | 0x823u64) == frame,
{
    assert((frame | 0x823u64) & 1u64 != 0) by (bit_vector);
    assert((frame | 0x823u64) & 2u64 != 0) by (bit_vector);
    assert((frame | 0x823u64) & !0xFFFu64 == frame) by (bit_vector)
        requires frame % 4096 == 0;
}

/// Walks the tables rooted at `l1_table` for `virt_addr` to its level-3
/// table; with `create_if_missing`, missing level-2 and level-3 tables are
/// created from zeroed frames of `pfa`. Returns the level-3 table and the
/// tables met on the way.
#[verifier::rlimit(100)]
#[verifier::spinoff_prover]
fn walk_page_table_mut(
    mem: &mut PhysMemory,
    pfa: &mut Pfa,
    l1_table: u64,
    virt_addr: u64,
    create_if_missing: bool,
) -> (r: (Result<u64, KError>, Ghost<Seq<u64>>))
    requires
        old(mem).wf(),
    ensures
        final(mem).wf(),
        final(mem).base == old(mem).base,
        final(mem).words@.len() == old(mem).words@.len(),
        final(pfa).heap_start == old(pfa).heap_start,
        final(pfa).heap_end == old(pfa).heap_end,
        final(pfa).next_free >= old(pfa).next_free,
        virt_addr % PAGE_SIZE != 0 ==> r.0 == Err::<u64, KError>(KError::AddressNotPageAligned)
            && final(mem).words@ == old(mem).words@,
        virt_addr % PAGE_SIZE == 0 ==> r.0 != Err::<u64, KError>(KError::AddressNotPageAligned),
        !create_if_missing ==> final(mem).words@ == old(mem).words@,
        !create_if_missing && virt_addr % PAGE_SIZE == 0 ==> match l3_table_at(old(mem), l1_table, virt_addr, 0) {
            Ok(t) => r.0 == Ok::<u64, KError>(t),
            Err(e) => r.0 == Err::<u64, KError>(e),
        },
        r.0 matches Ok(t) ==> {
            &&& arm_path_linked(final(mem), r.1@, virt_addr, 2)
            &&& r.1@[0] == l1_table
            &&& r.1@[2] == t
        },
        create_if_missing && l3_table_at(old(mem), l1_table, virt_addr, 0) is Ok ==>
            final(mem).words@ == old(mem).words@,
        create_if_missing && virt_addr % PAGE_SIZE == 0
            && arm_path_linked(old(mem), table_path(old(mem), l1_table, virt_addr), virt_addr, 2)
            ==> r.0 == Ok::<u64, KError>(table_path(old(mem), l1_table, virt_addr)[2]),
        create_if_missing && virt_addr % PAGE_SIZE == 0
            && walk_can_create(old(mem), l1_table, virt_addr, old(pfa).next_free, old(pfa).heap_end)
            ==> (r.0 matches Ok(t) && (final(mem).entry(t, arm_index(virt_addr, 2) as int) == 0
                || l3_table_at(old(mem), l1_table, virt_addr, 0) == Ok::<u64, KError>(t))),
{
    if virt_addr % PAGE_SIZE != 0 {
        return (Err(KError::AddressNotPageAligned), Ghost(Seq::empty()));
    }
    let ghost old_mem = *old(mem);
    let ghost nf0 = old(pfa).next_free;
    let ghost cc = create_if_missing && walk_can_create(&old_mem, l1_table, virt_addr, nf0, old(pfa).heap_end);
    let ghost tp = table_path(&old_mem, l1_table, virt_addr);
    let ghost ready = create_if_missing && arm_path_linked(&old_mem, tp, virt_addr, 2);
    proof {
        if ready {
            lemma_lookup_along_path(&old_mem, tp, virt_addr, 0);
        }
    }
    if !mem.frame_valid(l1_table) {
        proof {
            if ready {
                assert(old_mem.frame_ok(tp[0]));
            }
        }
        return (Err(if create_if_missing { KError::InternalError } else { KError::BadAddress }), Ghost(Seq::empty()));
    }
    let mut path: Vec<u64> = Vec::new();
    path.push(l1_table);
    proof {
        if ready {
            assert(path@ =~= tp.take(1));
        }
    }
    let mut table = l1_table;
    let mut level: u64 = 0;
    let ghost mut allocated = false;
    while level < 2
        invariant
            mem.wf(),
            mem.base == old_mem.base,
            mem.words@.len() == old_mem.words@.len(),
            old_mem == *old(mem),
            old_mem.wf(),
            pfa.heap_start == old(pfa).heap_start,
            pfa.heap_end == old(pfa).heap_end,
            pfa.next_free >= old(pfa).next_free,
            virt_addr % PAGE_SIZE == 0,
            0 <= level <= 2,
            path@.len() == level + 1,
            path@[0] == l1_table,
            path@[level as int] == table,
            arm_path_linked(mem, path@, virt_addr, level as int),
            !allocated ==> mem.words@ == old_mem.words@,
            !create_if_missing ==> !allocated,
            !allocated ==> l3_table_at(&old_mem, l1_table, virt_addr, 0)
                == l3_table_at(mem, table, virt_addr, level as nat),
            l3_table_at(&old_mem, l1_table, virt_addr, 0) is Ok ==> !allocated,
            tp == table_path(&old_mem, l1_table, virt_addr),
            ready == (create_if_missing && arm_path_linked(&old_mem, tp, virt_addr, 2)),
            ready ==> l3_table_at(&old_mem, l1_table, virt_addr, 0) is Ok,
            ready ==> path@ == tp.take(level + 1),
            nf0 == old(pfa).next_free,
            cc == (create_if_missing && walk_can_create(&old_mem, l1_table, virt_addr, nf0, old(pfa).heap_end)),
            !allocated ==> *pfa == *old(pfa),
            !allocated ==> path@ == tp.take(level + 1),
            cc && allocated ==> mem.frame_zero(table),
            cc && allocated && level == 1 ==> path@ == seq![l1_table, nf0] && pfa.next_free == nf0 + PAGE_SIZE
                && old_mem.entry(l1_table, arm_index(virt_addr, 0) as int) & PTE_VALID == 0,
            level == 0 ==> !allocated,
        decreases 2 - level,
    {
        let index = arm_index_exec(virt_addr, level);
        let entry = mem.read_entry(table, index);
        proof {
            if ready {
                assert(arm_link_ok(&old_mem, tp, virt_addr, level as int));
                assert(tp[level as int] == path@[level as int]);
                assert(entry == old_mem.entry(tp[level as int], arm_index(virt_addr, level as int) as int));
            }
        }
        let next: u64;
        proof {
            if cc && entry & PTE_VALID != 0 {
                lemma_arm_index_bound(virt_addr, level as int);
                if allocated {
                    assert(mem.entry(table, index as int) == 0);
                    lemma_zero_entry_invalid();
                    assert(false);
                }
                assert(entry == old_mem.entry(table, index as int));
                if level == 0 {
                    assert(path@ =~= seq![l1_table]);
                } else {
                    assert(arm_link_ok(mem, path@, virt_addr, 0));
                    assert(path@ =~= seq![l1_table, tp[1]]);
                }
                assert(entry & PTE_TABLE != 0);
                assert(mem.frame_ok(desc_addr(entry)));
            }
        }
        if entry & PTE_VALID == 0 {
            if !create_if_missing {
                return (Err(KError::BadAddress), Ghost(Seq::empty()));
            }
            let ghost expected_frame = pfa.next_free;
            proof {
                if cc {
                    if !allocated {
                        assert(entry == old_mem.entry(table, index as int));
                        if level == 0 {
                            assert(path@ =~= seq![l1_table]);
                            assert(fresh_table_frame(&old_mem, nf0, old(pfa).heap_end, seq![l1_table]));
                        } else {
                            assert(arm_link_ok(mem, path@, virt_addr, 0));
                            assert(path@ =~= seq![l1_table, tp[1]]);
                            assert(fresh_table_frame(&old_mem, nf0, old(pfa).heap_end, seq![l1_table, tp[1]]));
                        }
                        assert(fresh_table_frame(&old_mem, expected_frame, old(pfa).heap_end, path@));
                    } else {
                        assert(fresh_table_frame(&old_mem, (nf0 + PAGE_SIZE) as u64, old(pfa).heap_end, seq![l1_table, nf0]));
                        assert(fresh_table_frame(&old_mem, expected_frame, old(pfa).heap_end, path@));
                    }
                    assert(pfa.has_frame());
                }
            }
            let frame = match pfa.allocate_frame() {
                None => {
                    return (Err(KError::OutOfMemory), Ghost(Seq::empty()));
                },
                Some(f) => f,
            };
            proof {
                if cc {
                    assert(frame == expected_frame);
                    assert(mem.frame_ok(frame));
                    assert(!path@.contains(frame));
                }
            }
            if !mem.frame_valid(frame) || contains_u64(&path, frame) {
                return (Err(KError::InternalError), Ghost(Seq::empty()));
            }
            let ghost before = *mem;
            mem.zero_frame(frame);
            proof {
                assert forall|k: int| 0 <= k < level implies mem.words@[word_index(old_mem.base, #[trigger] path@[k], arm_index(virt_addr, k) as int)]
                    == before.words@[word_index(old_mem.base, path@[k], arm_index(virt_addr, k) as int)] by {
                    assert(before.frame_ok(path@[k]));
                    lemma_arm_index_bound(virt_addr, k);
                    lemma_word_index_in_range(&before, path@[k], arm_index(virt_addr, k) as int);
                    assert(path@.contains(path@[k]));
                }
                lemma_arm_path_kept(&before, mem, path@, virt_addr, level as int);
                assert(before.frame_ok(table));
                lemma_arm_index_bound(virt_addr, level as int);
                lemma_word_index_in_range(&before, table, index as int);
                assert(path@.contains(path@[level as int]));
                assert(mem.entry(table, index as int) == before.entry(table, index as int));
            }
            let descriptor = frame | PTE_TABLE | PTE_VALID | PTE_NON_SECURE | PTE_NSTABLE;
            let ghost before2 = *mem;
            mem.write_entry(table, index, descriptor);
            proof {
                assert forall|k: int| 0 <= k < level implies mem.words@[word_index(old_mem.base, #[trigger] path@[k], arm_index(virt_addr, k) as int)]
                    == before2.words@[word_index(old_mem.base, path@[k], arm_index(virt_addr, k) as int)] by {
                    assert(arm_link_ok(&before2, path@, virt_addr, k));
                    assert(before2.frame_ok(path@[k]));
                    lemma_arm_index_bound(virt_addr, k);
                    lemma_word_index_in_range(&before2, path@[k], arm_index(virt_addr, k) as int);
                    if word_index(old_mem.base, path@[k], arm_index(virt_addr, k) as int)
                        == word_index(old_mem.base, table, index as int) {
                        assert(before2.entry(path@[k], arm_index(virt_addr, k) as int) == entry);
                        assert(false);
                    }
                }
                lemma_arm_path_kept(&before2, mem, path@, virt_addr, level as int);
                assert(frame | 2u64 | 1u64 | 0x20u64 | 0x800u64 == frame | 0x823u64) by (bit_vector);
                lemma_table_descriptor(frame);
                assert(mem.entry(table, index as int) == descriptor);
                assert(path@.contains(path@[level as int]));
                assert forall|i: int| 0 <= i < WORDS_PER_FRAME implies #[trigger] mem.entry(frame, i) == 0 by {
                    assert(before2.entry(frame, i) == 0);
                    assert(before2.frame_ok(frame));
                    lemma_entries_distinct(&before2, frame, i, table, index as int);
                    lemma_word_index_in_range(&before2, frame, i);
                }
                allocated = true;
                if l3_table_at(&old_mem, l1_table, virt_addr, 0) is Ok {
                    assert(l3_table_at(&before, table, virt_addr, level as nat) == Err::<u64, KError>(KError::BadAddress));
                }
            }
            next = frame;
        } else if entry & PTE_TABLE == 0 {
            return (Err(KError::BadAddress), Ghost(Seq::empty()));
        } else {
            next = entry & !0xFFFu64;
            if !mem.frame_valid(next) {
                proof {
                    assert(l3_table_at(mem, next, virt_addr, (level + 1) as nat) == Err::<u64, KError>(KError::BadAddress));
                }
                return (Err(if create_if_missing { KError::InternalError } else { KError::BadAddress }), Ghost(Seq::empty()));
            }
        }
        proof {
            let p2 = path@.push(next);
            assert(p2[level as int] == table);
            assert(p2[level + 1] == next);
            assert(arm_link_ok(mem, p2, virt_addr, level as int));
            assert forall|k: int| 0 <= k < level + 1 implies #[trigger] arm_link_ok(mem, p2, virt_addr, k) by {
                if k < level {
                    assert(arm_link_ok(mem, path@, virt_addr, k));
                }
            }
            assert forall|k: int| 0 <= k <= level + 1 implies mem.frame_ok(#[trigger] p2[k]) by {
                if k <= level {
                    assert(mem.frame_ok(path@[k]));
                }
            }
        }
        path.push(next);
        table = next;
        level = level + 1;
        proof {
            if ready {
                assert(path@ =~= tp.take(level + 1));
            }
        }
    }
    proof {
        lemma_arm_index_bound(virt_addr, 2);
        if cc && allocated {
            assert(mem.entry(table, arm_index(virt_addr, 2) as int) == 0);
        }
        if !allocated {
            assert(mem.frame_ok(path@[2]));
        }
    }
    (Ok(table), Ghost(path@))
}

/// The level-3 descriptor mapping `virt_addr` in the tables rooted at
/// `l1_table`.
pub fn lookup_page(mem: &PhysMemory, l1_table: u64, virt_addr: u64) -> (r: Result<u64, KError>)
    requires
        mem.wf(),
    ensures
        r == lookup_spec(mem, l1_table, virt_addr),
{
    if virt_addr % PAGE_SIZE != 0 {
        return Err(KError::AddressNotPageAligned);
    }
    let mut table = l1_table;
    let mut level: u64 = 0;
    while level < 3
        invariant
            mem.wf(),
            level <= 3,
            virt_addr % PAGE_SIZE == 0,
            lookup_spec(mem, l1_table, virt_addr) == lookup_at(mem, table, virt_addr, level as nat),
        decreases 3 - level,
    {
        if !mem.frame_valid(table) {
            return Err(KError::BadAddress);
        }
        let index = arm_index_exec(virt_addr, level);
        let entry = mem.read_entry(table, index);
        if level < 2 {
            if (entry & PTE_VALID) == 0 || (entry & PTE_TABLE) == 0 {
                return Err(KError::BadAddress);
            }
            table = entry & !0xFFFu64;
        } else {
            if (entry & PTE_VALID) == 0 || (entry & PTE_PAGE) == 0 {
                return Err(KError::BadAddress);
            }
            return Ok(entry);
        }
        level = level + 1;
    }
    Err(KError::InternalError)
}

/// Maps the frame at `phys_frame_addr` at `virt_addr` with descriptor flags
/// `flags`, creating missing tables.
pub fn map_page(
    mem: &mut PhysMemory,
    pfa: &mut Pfa,
    l1_table: u64,
    virt_addr: u64,
    phys_frame_addr: u64,
    flags: u64,
) -> (r: Result<(), KError>)
    requires
        old(mem).wf(),
    ensures
        final(mem).wf(),
        final(mem).base == old(mem).base,
        final(mem).words@.len() == old(mem).words@.len(),
        final(pfa).heap_start == old(pfa).heap_start,
        final(pfa).heap_end == old(pfa).heap_end,
        final(pfa).next_free >= old(pfa).next_free,
        (virt_addr % PAGE_SIZE != 0 || phys_frame_addr % PAGE_SIZE != 0)
            <==> r == Err::<(), KError>(KError::AddressNotPageAligned),
        (virt_addr % PAGE_SIZE != 0 || phys_frame_addr % PAGE_SIZE != 0) ==> final(mem).words@ == old(mem).words@,
        r is Ok ==> lookup_spec(final(mem), l1_table, virt_addr) == (
            if (phys_frame_addr | flags) & PTE_VALID != 0 && (phys_frame_addr | flags) & PTE_PAGE != 0 {
                Ok::<u64, KError>(phys_frame_addr | flags)
            } else {
                Err::<u64, KError>(KError::BadAddress)
            }),
        lookup_spec(old(mem), l1_table, virt_addr) is Ok ==> r is Err && final(mem).words@ == old(mem).words@,
        virt_addr % PAGE_SIZE == 0 && phys_frame_addr % PAGE_SIZE == 0
            && walk_can_create(old(mem), l1_table, virt_addr, old(pfa).next_free, old(pfa).heap_end)
            && (l3_table_at(old(mem), l1_table, virt_addr, 0) is Ok
                ==> old(mem).entry(l3_table_at(old(mem), l1_table, virt_addr, 0)->Ok_0, arm_index(virt_addr, 2) as int) & PTE_VALID == 0)
            ==> r is Ok,
        virt_addr % PAGE_SIZE == 0 && phys_frame_addr % PAGE_SIZE == 0 && slot_free(old(mem), l1_table, virt_addr) ==> {
            &&& r is Ok
            &&& final(mem).words@ == old(mem).words@.update(
                word_index(old(mem).base, table_path(old(mem), l1_table, virt_addr)[2], arm_index(virt_addr, 2) as int),
                phys_frame_addr | flags)
        },
{
    if virt_addr % PAGE_SIZE != 0 || phys_frame_addr % PAGE_SIZE != 0 {
        return Err(KError::AddressNotPageAligned);
    }
    proof {
        if slot_free(old(mem), l1_table, virt_addr) {
            lemma_lookup_along_path(old(mem), table_path(old(mem), l1_table, virt_addr), virt_addr, 0);
        }
        if lookup_spec(old(mem), l1_table, virt_addr) is Ok {
            lemma_lookup_ok_has_l3(old(mem), l1_table, virt_addr, 0);
        }
    }
    let (walked, Ghost(path)) = walk_page_table_mut(mem, pfa, l1_table, virt_addr, true);
    let l3 = match walked {
        Ok(t) => t,
        Err(e) => {
            return Err(e);
        },
    };
    let index = arm_index_exec(virt_addr, 2);
    let current = mem.read_entry(l3, index);
    proof {
        lemma_zero_entry_invalid();
    }
    if (current & PTE_VALID) != 0 {
        return Err(KError::AlreadyExists);
    }
    proof {
        if lookup_spec(old(mem), l1_table, virt_addr) is Ok {
            lemma_lookup_along_path(mem, path, virt_addr, 0);
            lemma_lookup_congruent(old(mem), mem, l1_table, virt_addr, 0);
        }
    }
    let ghost before = *mem;
    mem.write_entry(l3, index, phys_frame_addr | flags);
    proof {
        assert forall|k: int| 0 <= k < 2 implies mem.words@[word_index(before.base, #[trigger] path[k], arm_index(virt_addr, k) as int)]
            == before.words@[word_index(before.base, path[k], arm_index(virt_addr, k) as int)] by {
            assert(arm_link_ok(&before, path, virt_addr, k));
            assert(before.frame_ok(path[k]));
            lemma_arm_index_bound(virt_addr, k);
            lemma_word_index_in_range(&before, path[k], arm_index(virt_addr, k) as int);
            if word_index(before.base, path[k], arm_index(virt_addr, k) as int)
                == word_index(before.base, l3, index as int) {
                assert(before.entry(path[k], arm_index(virt_addr, k) as int) == current);
                assert(false);
            }
        }
        lemma_arm_path_kept(&before, mem, path, virt_addr, 2);
        lemma_lookup_along_path(mem, path, virt_addr, 0);
        assert(mem.entry(l3, index as int) == phys_frame_addr | flags);
    }
    Ok(())
}

/// Lookups only depend on the base and the words of the memory.
proof fn lemma_lookup_congruent(m1: &PhysMemory, m2: &PhysMemory, table: u64, va: u64, level: nat)
    requires
        m1.base == m2.base,
        m1.words@ == m2.words@,
    ensures
        lookup_at(m1, table, va, level) == lookup_at(m2, table, va, level),
        l3_table_at(m1, table, va, level) == l3_table_at(m2, table, va, level),
    decreases 3 - level,
{
    if level < 3 {
        let e = m1.entry(table, arm_index(va, level as int) as int);
        lemma_lookup_congruent(m1, m2, desc_addr(e), va, level + 1);
    }
}

/// A successful lookup passes through a level-3 table.
proof fn lemma_lookup_ok_has_l3(mem: &PhysMemory, table: u64, va: u64, level: nat)
    requires
        lookup_at(mem, table, va, level) is Ok,
    ensures
        l3_table_at(mem, table, va, level) matches Ok(t) && lookup_at(mem, table, va, level) == lookup_at(mem, t, va, 2),
    decreases 3 - level,
{
    if level < 2 {
        let e = mem.entry(table, arm_index(va, level as int) as int);
        lemma_lookup_ok_has_l3(mem, desc_addr(e), va, level + 1);
    }
}

/// Removes the mapping of `virt_addr` and returns the frame it mapped; the
/// frame itself is not freed.
pub fn unmap_page(mem: &mut PhysMemory, l1_table: u64, virt_addr: u64) -> (r: Result<u64, KError>)
    requires
        old(mem).wf(),
    ensures
        final(mem).wf(),
        final(mem).base == old(mem).base,
        final(mem).words@.len() == old(mem).words@.len(),
        match lookup_spec(old(mem), l1_table, virt_addr) {
            Ok(e) => r == Ok::<u64, KError>(desc_addr(e)),
            Err(err) => r == Err::<u64, KError>(err) && final(mem).words@ == old(mem).words@,
        },
        r is Ok ==> lookup_spec(final(mem), l1_table, virt_addr) == Err::<u64, KError>(KError::BadAddress),
        r is Ok ==> exists|w: int| 0 <= w < old(mem).words@.len()
            && final(mem).words@ == old(mem).words@.update(w, 0),
        r is Ok && arm_path_linked(old(mem), table_path(old(mem), l1_table, virt_addr), virt_addr, 2)
            ==> final(mem).words@ == old(mem).words@.update(
                word_index(old(mem).base, table_path(old(mem), l1_table, virt_addr)[2], arm_index(virt_addr, 2) as int), 0),
{
    let ghost old_mem = *old(mem);
    proof {
        if arm_path_linked(&old_mem, table_path(&old_mem, l1_table, virt_addr), virt_addr, 2) {
            lemma_lookup_along_path(&old_mem, table_path(&old_mem, l1_table, virt_addr), virt_addr, 0);
        }
    }
    let (walked, Ghost(path)) = walk_page_table_mut(mem, &mut Pfa { heap_start: 0, heap_end: 0, next_free: 0 }, l1_table, virt_addr, false);
    let l3 = match walked {
        Ok(t) => t,
        Err(e) => {
            proof {
                if virt_addr % PAGE_SIZE == 0 {
                    lemma_lookup_fails_with_walk(&old_mem, l1_table, virt_addr, 0);
                }
            }
            return Err(e);
        },
    };
    proof {
        lemma_lookup_along_path(mem, path, virt_addr, 0);
        lemma_lookup_congruent(&old_mem, mem, l1_table, virt_addr, 0);
        assert forall|k: int| 0 <= k < 2 implies old_mem.words@[word_index(mem.base, #[trigger] path[k], arm_index(virt_addr, k) as int)]
            == mem.words@[word_index(mem.base, path[k], arm_index(virt_addr, k) as int)] by {}
        lemma_arm_path_kept(mem, &old_mem, path, virt_addr, 2);
    }
    let index = arm_index_exec(virt_addr, 2);
    let l3_entry = mem.read_entry(l3, index);
    if (l3_entry & PTE_VALID) == 0 || (l3_entry & PTE_PAGE) == 0 {
        return Err(KError::BadAddress);
    }
    let phys_frame_addr = l3_entry & !0xFFFu64;
    mem.write_entry(l3, index, 0);
    proof {
        lemma_arm_cleared(&old_mem, mem, path, virt_addr, 0);
        lemma_word_index_in_range(&old_mem, l3, index as int);
    }
    Ok(phys_frame_addr)
}

/// A walk that stops early makes the lookup fail with the same error.
proof fn lemma_lookup_fails_with_walk(mem: &PhysMemory, table: u64, va: u64, level: nat)
    requires
        level <= 2,
        l3_table_at(mem, table, va, level) is Err,
    ensures
        lookup_at(mem, table, va, level) == l3_table_at(mem, table, va, level),
    decreases 3 - level,
{
    if level < 2 && mem.frame_ok(table) {
        let e = mem.entry(table, arm_index(va, level as int) as int);
        if !(e & PTE_VALID == 0 || e & PTE_TABLE == 0) {
            lemma_lookup_fails_with_walk(mem, desc_addr(e), va, level + 1);
        }
    }
}

} // verus!

verus! {

/// Start of the user virtual range.
pub const USER_VA_START: u64 = 0x1000_0000;
/// End (exclusive) of the user virtual range.
pub const USER_VA_END: u64 = 0x8000_0000;

/// No page of the `num_pages`-page block starting at `start` is mapped.
pub open spec fn block_free(mem: &PhysMemory, l1_table: u64, start: int, num_pages: int) -> bool {
    forall|i: int| 0 <= i < num_pages ==> #[trigger] lookup_spec(mem, l1_table, (start + i * PAGE_SIZE) as u64) is Err
}

/// Allocator of user virtual ranges: looks for free blocks from where the
/// last allocation ended, wrapping to the start of the range once.
pub struct VmspaceAllocator {
    pub next_vaddr: u64,
    pub end_vaddr: u64,
    pub start_vaddr_range: u64,
}

impl VmspaceAllocator {
    /// An allocator for `[start, end)`.
    pub fn new_with_range(start: u64, end: u64) -> (r: Self)
        ensures
            r.next_vaddr == start,
            r.end_vaddr == end,
            r.start_vaddr_range == start,
    {
        VmspaceAllocator { next_vaddr: start, end_vaddr: end, start_vaddr_range: start }
    }

    /// Where the search for a block of `size` bytes begins.
    pub open spec fn first_candidate(&self, size: int) -> int {
        if self.next_vaddr + size > self.end_vaddr {
            self.start_vaddr_range as int
        } else {
            self.next_vaddr as int
        }
    }

    /// Finds the first block of `num_pages` unmapped pages, stepping one page
    /// at a time from `first_candidate` up to the end of the range, and
    /// records where it ends.
    pub fn allocate_pages(&mut self, num_pages: u64, mem: &PhysMemory, l1_table: u64) -> (r: Result<u64, KError>)
        requires
            mem.wf(),
            num_pages * PAGE_SIZE <= u64::MAX,
            old(self).end_vaddr + num_pages * PAGE_SIZE <= u64::MAX,
            old(self).next_vaddr + num_pages * PAGE_SIZE <= u64::MAX,
        ensures
            final(self).end_vaddr == old(self).end_vaddr,
            final(self).start_vaddr_range == old(self).start_vaddr_range,
            num_pages == 0 ==> r == Ok::<u64, KError>(0) && *final(self) == *old(self),
            num_pages > 0 ==> {
                let size = num_pages * PAGE_SIZE;
                let c0 = old(self).first_candidate(size);
                &&& r matches Ok(a) ==> {
                    &&& c0 <= a
                    &&& (a - c0) % (PAGE_SIZE as int) == 0
                    &&& a + size <= old(self).end_vaddr
                    &&& block_free(mem, l1_table, a as int, num_pages as int)
                    &&& forall|c: int| c0 <= c < a && (c - c0) % (PAGE_SIZE as int) == 0
                        ==> !#[trigger] block_free(mem, l1_table, c, num_pages as int)
                    &&& final(self).next_vaddr == a + size
                }
                &&& r is Err ==> {
                    &&& r == Err::<u64, KError>(KError::OutOfMemory)
                    &&& *final(self) == *old(self)
                    &&& forall|c: int| c0 <= c && c + size <= old(self).end_vaddr && (c - c0) % (PAGE_SIZE as int) == 0
                        ==> !#[trigger] block_free(mem, l1_table, c, num_pages as int)
                }
            },
    {
        if num_pages == 0 {
            return Ok(0);
        }
        let size = num_pages * PAGE_SIZE;
        let mut current_attempt = self.next_vaddr;
        if current_attempt + size > self.end_vaddr {
            current_attempt = self.start_vaddr_range;
        }
        let ghost c0 = current_attempt as int;
        if current_attempt > self.end_vaddr {
            return Err(KError::OutOfMemory);
        }
        while current_attempt + size <= self.end_vaddr
            invariant
                mem.wf(),
                num_pages > 0,
                size == num_pages * PAGE_SIZE,
                *self == *old(self),
                self.end_vaddr + size <= u64::MAX,
                c0 <= current_attempt <= self.end_vaddr,
                c0 == old(self).first_candidate(size as int),
                (current_attempt - c0) % (PAGE_SIZE as int) == 0,
                forall|c: int| c0 <= c < current_attempt && (c - c0) % (PAGE_SIZE as int) == 0
                    ==> !#[trigger] block_free(mem, l1_table, c, num_pages as int),
            decreases self.end_vaddr - current_attempt,
        {
            let mut conflict = false;
            let mut i: u64 = 0;
            let ghost start = current_attempt;
            while i < num_pages
                invariant_except_break
                    start == current_attempt,
                    !conflict,
                invariant
                    mem.wf(),
                    num_pages > 0,
                    size == num_pages * PAGE_SIZE,
                    start + size <= self.end_vaddr,
                    self.end_vaddr + size <= u64::MAX,
                    i <= num_pages,
                    forall|j: int| 0 <= j < i ==> #[trigger] lookup_spec(mem, l1_table, (start + j * PAGE_SIZE) as u64) is Err,
                ensures
                    !conflict ==> current_attempt == start && forall|j: int| 0 <= j < num_pages
                        ==> #[trigger] lookup_spec(mem, l1_table, (start + j * PAGE_SIZE) as u64) is Err,
                    conflict ==> {
                        &&& start < current_attempt <= start + size
                        &&& (current_attempt - start) % (PAGE_SIZE as int) == 0
                        &&& forall|c: int| start <= c < current_attempt && (c - start) % (PAGE_SIZE as int) == 0
                            ==> !#[trigger] block_free(mem, l1_table, c, num_pages as int)
                    },
                decreases num_pages - i,
            {
                let vaddr = current_attempt + i * PAGE_SIZE;
                if lookup_page(mem, l1_table, vaddr).is_ok() {
                    conflict = true;
                    proof {
                        assert forall|c: int| start <= c <= vaddr && (c - start) % (PAGE_SIZE as int) == 0
                            implies !#[trigger] block_free(mem, l1_table, c, num_pages as int) by {
                            let k = (vaddr - c) / (PAGE_SIZE as int);
                            assert(c + k * PAGE_SIZE == vaddr);
                            assert(0 <= k < num_pages);
                            assert(lookup_spec(mem, l1_table, (c + k * PAGE_SIZE) as u64) is Ok);
                        }
                    }
                    current_attempt = vaddr + PAGE_SIZE;
                    break;
                }
                i = i + 1;
            }
            if !conflict {
                proof {
                    assert forall|j: int| 0 <= j < num_pages implies #[trigger] lookup_spec(mem, l1_table, (current_attempt + j * PAGE_SIZE) as u64) is Err by {
                        assert(lookup_spec(mem, l1_table, (start + j * PAGE_SIZE) as u64) is Err);
                    }
                    assert(block_free(mem, l1_table, current_attempt as int, num_pages as int));
                }
                self.next_vaddr = current_attempt + size;
                return Ok(current_attempt);
            }
            proof {
                assert forall|c: int| c0 <= c < current_attempt && (c - c0) % (PAGE_SIZE as int) == 0
                    implies !#[trigger] block_free(mem, l1_table, c, num_pages as int) by {
                    if c >= start {
                        assert((c - start) % (PAGE_SIZE as int) == 0);
                    }
                }
            }
        }
        Err(KError::OutOfMemory)
    }
}

} // verus!

verus! {

/// Number of shared-memory object slots.
pub const MAX_SHARED_MEM_OBJECTS: usize = 32;

/// The frames of one shared-memory object.
pub struct SharedMemObject {
    pub frames: Vec<u64>,
}

/// Registry of shared-memory objects: a fixed table of slots and the
/// counter that makes handle values unique.
pub struct SharedMemManager {
    pub objects: Vec<Option<SharedMemObject>>,
    pub next_handle_value: u64,
}

/// The handle naming slot `index` with unique value `value`.
pub open spec fn handle_for(index: int, value: u64) -> u64 {
    ((index as u64) << 32u64) | (value & 0xFFFF_FFFFu64)
}

/// The slot a handle names.
pub open spec fn handle_slot(handle: u64) -> int {
    (handle >> 32u64) as int
}

/// The slot of a handle made for slot `index` is `index`.
pub proof fn lemma_handle_slot(index: u64, value: u64)
    requires
        index < 0x1_0000_0000,
    ensures
        handle_slot(handle_for(index as int, value)) == index,
{
    assert((((index << 32u64) | (value & 0xFFFF_FFFFu64)) >> 32u64) == index) by (bit_vector)
        requires index < 0x1_0000_0000u64;
}

impl SharedMemManager {
    /// All slots present.
    pub open spec fn wf(&self) -> bool {
        self.objects@.len() == MAX_SHARED_MEM_OBJECTS
    }

    /// The frames held by the object that `handle` names, if any.
    pub open spec fn frames_of(&self, handle: u64) -> Option<Seq<u64>> {
        let i = handle_slot(handle);
        if 0 <= i < MAX_SHARED_MEM_OBJECTS && self.objects@[i] is Some {
            Some(self.objects@[i]->Some_0.frames@)
        } else {
            None
        }
    }

    /// An empty registry; handle values start at 1000.
    pub fn new() -> (r: Self)
        ensures
            r.wf(),
            r.next_handle_value == 1000,
            forall|i: int| 0 <= i < MAX_SHARED_MEM_OBJECTS ==> #[trigger] r.objects@[i] is None,
    {
        let mut objects: Vec<Option<SharedMemObject>> = Vec::new();
        let mut i: usize = 0;
        while i < MAX_SHARED_MEM_OBJECTS
            invariant
                i <= MAX_SHARED_MEM_OBJECTS,
                objects@.len() == i,
                forall|j: int| 0 <= j < i ==> #[trigger] objects@[j] is None,
            decreases MAX_SHARED_MEM_OBJECTS - i,
        {
            objects.push(None);
            i = i + 1;
        }
        SharedMemManager { objects, next_handle_value: 1000 }
    }

    /// Stores `frames` in the first free slot and returns its handle (slot in
    /// the upper 32 bits, the low 32 bits of the counter below).
    pub fn register_object(&mut self, frames: Vec<u64>) -> (r: Result<KHandle, KError>)
        requires
            old(self).wf(),
        ensures
            final(self).wf(),
            (exists|i: int| 0 <= i < MAX_SHARED_MEM_OBJECTS && #[trigger] old(self).objects@[i] is None) ==> {
                &&& r matches Ok(h) && {
                    let i = handle_slot(h.0);
                    &&& 0 <= i < MAX_SHARED_MEM_OBJECTS
                    &&& old(self).objects@[i] is None
                    &&& forall|j: int| 0 <= j < i ==> #[trigger] old(self).objects@[j] is Some
                    &&& h.0 == handle_for(i, old(self).next_handle_value)
                    &&& final(self).frames_of(h.0) == Some(frames@)
                    &&& forall|j: int| 0 <= j < MAX_SHARED_MEM_OBJECTS && j != i
                        ==> #[trigger] final(self).objects@[j] == old(self).objects@[j]
                }
                &&& final(self).next_handle_value == old(self).next_handle_value.wrapping_add(1)
            },
            !(exists|i: int| 0 <= i < MAX_SHARED_MEM_OBJECTS && #[trigger] old(self).objects@[i] is None) ==> {
                &&& r == Err::<KHandle, KError>(KError::OutOfMemory)
                &&& final(self).objects@ == old(self).objects@
                &&& final(self).next_handle_value == old(self).next_handle_value
            },
    {
        let mut i: usize = 0;
        while i < MAX_SHARED_MEM_OBJECTS
            invariant
                self.wf(),
                *self == *old(self),
                i <= MAX_SHARED_MEM_OBJECTS,
                forall|j: int| 0 <= j < i ==> #[trigger] self.objects@[j] is Some,
            decreases MAX_SHARED_MEM_OBJECTS - i,
        {
            if self.objects[i].is_none() {
                let handle_value = self.next_handle_value;
                self.next_handle_value = self.next_handle_value.wrapping_add(1);
                let k_handle = KHandle(((i as u64) << 32u64) | (handle_value & 0xFFFF_FFFFu64));
                proof { lemma_handle_slot(i as u64, handle_value); }
                self.objects.set(i, Some(SharedMemObject { frames }));
                return Ok(k_handle);
            }
            i = i + 1;
        }
        Err(KError::OutOfMemory)
    }

    /// The frames of the object `handle` names; `BadHandle` when the slot is
    /// out of range or empty.
    pub fn get_object_frames(&self, handle: &KHandle) -> (r: Result<&Vec<u64>, KError>)
        requires
            self.wf(),
        ensures
            match self.frames_of(handle.0) {
                Some(fr) => r matches Ok(v) && v@ == fr,
                None => r == Err::<&Vec<u64>, KError>(KError::BadHandle),
            },
    {
        let index = handle.0 >> 32u64;
        if index < MAX_SHARED_MEM_OBJECTS as u64 {
            match &self.objects[index as usize] {
                Some(obj) => Ok(&obj.frames),
                None => Err(KError::BadHandle),
            }
        } else {
            Err(KError::BadHandle)
        }
    }

    /// Empties the slot `handle` names; `BadHandle` when it is out of range
    /// or already empty.
    pub fn release_object(&mut self, handle: &KHandle) -> (r: Result<(), KError>)
        requires
            old(self).wf(),
        ensures
            final(self).wf(),
            final(self).next_handle_value == old(self).next_handle_value,
            old(self).frames_of(handle.0) is Some ==> {
                &&& r is Ok
                &&& final(self).objects@ == old(self).objects@.update(handle_slot(handle.0), None)
            },
            old(self).frames_of(handle.0) is None ==> {
                &&& r == Err::<(), KError>(KError::BadHandle)
                &&& final(self).objects@ == old(self).objects@
            },
            final(self).frames_of(handle.0) is None,
    {
        let index = handle.0 >> 32u64;
        if index < MAX_SHARED_MEM_OBJECTS as u64 {
            if self.objects[index as usize].is_some() {
                self.objects.set(index as usize, None);
                Ok(())
            } else {
                Err(KError::BadHandle)
            }
        } else {
            Err(KError::BadHandle)
        }
    }
}

} // verus!

verus! {

/// Number of pages covering `size` bytes.
pub open spec fn pages_for(size: u64) -> int {
    (size + PAGE_SIZE - 1) / (PAGE_SIZE as int)
}

/// Clearing a word never makes a failed lookup succeed.
proof fn lemma_arm_clear_keeps_unmapped(old_mem: &PhysMemory, mem: &PhysMemory, w: int, table: u64, va: u64, level: nat)
    requires
        old_mem.wf(),
        mem.base == old_mem.base,
        0 <= w < old_mem.words@.len(),
        mem.words@ == old_mem.words@.update(w, 0),
        lookup_at(old_mem, table, va, level) == Err::<u64, KError>(KError::BadAddress),
        level < 3,
    ensures
        lookup_at(mem, table, va, level) == Err::<u64, KError>(KError::BadAddress),
    decreases 3 - level,
{
    if old_mem.frame_ok(table) {
        lemma_arm_index_bound(va, level as int);
        let wi = word_index(old_mem.base, table, arm_index(va, level as int) as int);
        lemma_word_index_in_range(old_mem, table, arm_index(va, level as int) as int);
        assert(0u64 & PTE_VALID == 0) by (bit_vector);
        if wi == w {
            assert(mem.entry(table, arm_index(va, level as int) as int) == 0);
        } else {
            assert(mem.entry(table, arm_index(va, level as int) as int)
                == old_mem.entry(table, arm_index(va, level as int) as int));
            let e = old_mem.entry(table, arm_index(va, level as int) as int);
            if level < 2 && !(e & PTE_VALID == 0 || e & PTE_TABLE == 0) {
                lemma_arm_clear_keeps_unmapped(old_mem, mem, w, desc_addr(e), va, level + 1);
            }
        }
    }
}

/// The AArch64 memory manager: physical memory, the frame allocator, the
/// user address space (its level-1 table and virtual-range allocator) and
/// the shared-memory registry.
pub struct ArmMmu {
    pub mem: PhysMemory,
    pub pfa: Pfa,
    pub user_page_table: Option<u64>,
    pub va_allocator: VmspaceAllocator,
    pub shared: SharedMemManager,
}

impl ArmMmu {
    /// Memory and registry well formed.
    pub open spec fn wf(&self) -> bool {
        &&& self.mem.wf()
        &&& self.shared.wf()
    }

    /// A manager over `mem` whose frame allocator hands out
    /// `physical_memory_size` bytes from `physical_memory_start`, with the
    /// user range `[USER_VA_START, USER_VA_END)` and no user table yet.
    pub fn init_manager(mem: PhysMemory, physical_memory_start: u64, physical_memory_size: u64) -> (r: Self)
        requires
            mem.wf(),
            physical_memory_start + physical_memory_size <= u64::MAX,
        ensures
            r.wf(),
            r.mem == mem,
            r.pfa.heap_start == physical_memory_start,
            r.pfa.heap_end == physical_memory_start + physical_memory_size,
            r.pfa.next_free == physical_memory_start,
            r.user_page_table is None,
            r.va_allocator.next_vaddr == USER_VA_START,
            r.va_allocator.start_vaddr_range == USER_VA_START,
            r.va_allocator.end_vaddr == USER_VA_END,
            forall|h: u64| #[trigger] r.shared.frames_of(h) is None,
    {
        let shared = SharedMemManager::new();
        ArmMmu {
            mem,
            pfa: Pfa::init(physical_memory_start, physical_memory_size),
            user_page_table: None,
            va_allocator: VmspaceAllocator::new_with_range(USER_VA_START, USER_VA_END),
            shared,
        }
    }

    /// The user level-1 table, created from a zeroed frame on first use;
    /// `None` when no usable frame is left.
    pub fn get_current_user_page_table(&mut self) -> (r: Option<u64>)
        requires
            old(self).wf(),
        ensures
            final(self).wf(),
            final(self).mem.base == old(self).mem.base,
            final(self).mem.words@.len() == old(self).mem.words@.len(),
            final(self).va_allocator == old(self).va_allocator,
            final(self).shared == old(self).shared,
            final(self).pfa.heap_start == old(self).pfa.heap_start,
            final(self).pfa.heap_end == old(self).pfa.heap_end,
            old(self).user_page_table matches Some(t) ==> r == Some(t) && final(self).mem == old(self).mem
                && final(self).pfa == old(self).pfa && final(self).user_page_table == old(self).user_page_table,
            old(self).user_page_table is None ==> {
                if old(self).pfa.has_frame() && old(self).mem.frame_ok(old(self).pfa.next_free) {
                    &&& r == Some(old(self).pfa.next_free)
                    &&& final(self).user_page_table == r
                    &&& final(self).pfa.next_free == old(self).pfa.next_free + PAGE_SIZE
                    &&& final(self).mem.frame_zero(old(self).pfa.next_free)
                } else {
                    &&& r is None
                    &&& final(self).user_page_table is None
                    &&& final(self).mem.words@ == old(self).mem.words@
                }
            },
            r is Some ==> final(self).user_page_table == r,
    {
        match self.user_page_table {
            Some(t) => Some(t),
            None => {
                if !(self.pfa.next_free <= self.pfa.heap_end && self.pfa.heap_end - self.pfa.next_free >= PAGE_SIZE)
                    || !self.mem.frame_valid(self.pfa.next_free) {
                    return None;
                }
                let frame = match self.pfa.allocate_frame() {
                    Some(f) => f,
                    None => {
                        return None;
                    },
                };
                self.mem.zero_frame(frame);
                self.user_page_table = Some(frame);
                Some(frame)
            },
        }
    }

    /// The user virtual-range allocator, always available.
    pub fn get_current_user_va_allocator(&mut self) -> (r: Option<&mut VmspaceAllocator>)
        ensures
            r matches Some(a) && *a == old(self).va_allocator && final(self).va_allocator == *final(a)
                && final(self).mem == old(self).mem && final(self).pfa == old(self).pfa
                && final(self).user_page_table == old(self).user_page_table && final(self).shared == old(self).shared,
    {
        Some(&mut self.va_allocator)
    }

    /// The current task: 1 once the user address space exists, else 0.
    pub fn get_current_task_id(&self) -> (r: KTaskId)
        ensures
            r.0 == if self.user_page_table is Some { 1u64 } else { 0u64 },
    {
        KTaskId(if self.user_page_table.is_some() { 1 } else { 0 })
    }

    /// The physical frame mapped at `virt_addr` in the user address space.
    pub fn lookup_vaddr_phys(&self, virt_addr: u64) -> (r: Result<u64, KError>)
        requires
            self.wf(),
        ensures
            self.user_page_table is None ==> r == Err::<u64, KError>(KError::BadAddress),
            self.user_page_table matches Some(t) ==> r == match lookup_spec(&self.mem, t, virt_addr) {
                Ok(e) => Ok::<u64, KError>(desc_addr(e)),
                Err(err) => Err::<u64, KError>(err),
            },
    {
        match self.user_page_table {
            None => Err(KError::BadAddress),
            Some(t) => match lookup_page(&self.mem, t, virt_addr) {
                Ok(e) => Ok(e & !0xFFFu64),
                Err(err) => Err(err),
            },
        }
    }

    /// Removes the mappings of the `count` pages at `start`, ignoring pages
    /// that are not mapped.
    fn unmap_first_pages(&mut self, l1_table: u64, start: u64, count: u64)
        requires
            old(self).wf(),
            start + count * PAGE_SIZE <= u64::MAX,
        ensures
            final(self).wf(),
            final(self).mem.base == old(self).mem.base,
            final(self).mem.words@.len() == old(self).mem.words@.len(),
            final(self).user_page_table == old(self).user_page_table,
            final(self).va_allocator == old(self).va_allocator,
            final(self).shared == old(self).shared,
            final(self).pfa == old(self).pfa,
    {
        let mut cleanup_vaddr = start;
        let mut j: u64 = 0;
        while j < count
            invariant
                self.wf(),
                self.mem.base == old(self).mem.base,
                self.mem.words@.len() == old(self).mem.words@.len(),
                self.user_page_table == old(self).user_page_table,
                self.va_allocator == old(self).va_allocator,
                self.shared == old(self).shared,
                self.pfa == old(self).pfa,
                j <= count,
                start + count * PAGE_SIZE <= u64::MAX,
                cleanup_vaddr == start + j * PAGE_SIZE,
            decreases count - j,
        {
            let _ = unmap_page(&mut self.mem, l1_table, cleanup_vaddr);
            cleanup_vaddr = cleanup_vaddr + PAGE_SIZE;
            j = j + 1;
        }
    }

    /// Maps `frames[first + i]` at `start + i * PAGE_SIZE` for `i < num`
    /// with user data flags, then reads every page back; when a page cannot
    /// be mapped, or does not read back as its frame, removes the pages of
    /// the range and returns false.
    fn map_frames(&mut self, l1_table: u64, start: u64, frames: &Vec<u64>, first: usize, num: u64) -> (ok: bool)
        requires
            old(self).wf(),
            num > 0,
            start + num * PAGE_SIZE <= u64::MAX,
            first + num <= frames@.len(),
        ensures
            final(self).wf(),
            final(self).mem.base == old(self).mem.base,
            final(self).mem.words@.len() == old(self).mem.words@.len(),
            final(self).user_page_table == old(self).user_page_table,
            final(self).va_allocator == old(self).va_allocator,
            final(self).shared == old(self).shared,
            final(self).pfa.heap_end == old(self).pfa.heap_end,
            final(self).pfa.next_free >= old(self).pfa.next_free,
            ok ==> forall|k: int| 0 <= k < num ==>
                #[trigger] lookup_spec(&final(self).mem, l1_table, page_va(start, k))
                    == Ok::<u64, KError>(frames@[first + k] | USER_DATA_FLAGS),
            range_ready(&old(self).mem, l1_table, start, frames@, first as int, num as int) ==> ok,
    {
        let frames_len = frames.len();
        let ghost om = old(self).mem;
        let ghost ready = range_ready(&om, l1_table, start, frames@, first as int, num as int);
        let mut i: u64 = 0;
        while i < num
            invariant
                om == old(self).mem,
                ready == range_ready(&om, l1_table, start, frames@, first as int, num as int),
                ready ==> forall|k: int| 0 <= k < num ==>
                    #[trigger] table_path(&self.mem, l1_table, page_va(start, k)) == table_path(&om, l1_table, page_va(start, k)),
                ready ==> forall|k: int| i <= k < num ==> #[trigger] slot_free(&self.mem, l1_table, page_va(start, k)),
                ready ==> forall|k: int| 0 <= k < i ==>
                    arm_path_linked(&self.mem, table_path(&om, l1_table, page_va(start, k)), page_va(start, k), 2)
                    && #[trigger] lookup_spec(&self.mem, l1_table, page_va(start, k))
                        == Ok::<u64, KError>(frames@[first + k] | USER_DATA_FLAGS),
                frames_len == frames@.len(),
                self.wf(),
                self.mem.base == old(self).mem.base,
                self.mem.words@.len() == old(self).mem.words@.len(),
                self.user_page_table == old(self).user_page_table,
                self.va_allocator == old(self).va_allocator,
                self.shared == old(self).shared,
                self.pfa.heap_end == old(self).pfa.heap_end,
                self.pfa.next_free >= old(self).pfa.next_free,
                num > 0,
                start + num * PAGE_SIZE <= u64::MAX,
                first + num <= frames@.len(),
                i <= num,
            decreases num - i,
        {
            let virt_addr = start + i * PAGE_SIZE;
            assert(first + i < frames@.len());
            let phys_frame = frames[first + i as usize];
            let ghost before = self.mem;
            proof {
                if ready {
                    assert(virt_addr == page_va(start, i as int));
                    assert(slot_free(&before, l1_table, page_va(start, i as int)));
                    assert(frames@[first + i] % PAGE_SIZE == 0);
                    assert(table_path(&before, l1_table, page_va(start, i as int)) == table_path(&om, l1_table, page_va(start, i as int)));
                }
            }
            let mapped = map_page(&mut self.mem, &mut self.pfa, l1_table, virt_addr, phys_frame, USER_DATA_FLAGS);
            if mapped.is_err() {
                self.unmap_first_pages(l1_table, start, i);
                return false;
            }
            proof {
                assert((phys_frame | 0x40_0000_0000_0747u64) & 1u64 != 0) by (bit_vector);
                assert((phys_frame | 0x40_0000_0000_0747u64) & 2u64 != 0) by (bit_vector);
                assert(lookup_spec(&self.mem, l1_table, virt_addr) == Ok::<u64, KError>(phys_frame | USER_DATA_FLAGS));
                if ready {
                    let vi = page_va(start, i as int);
                    let v = phys_frame | USER_DATA_FLAGS;
                    lemma_own_path_kept(&before, &self.mem, l1_table, vi, v);
                    assert(table_path(&self.mem, l1_table, vi) == table_path(&om, l1_table, vi));
                    assert(arm_path_linked(&self.mem, table_path(&om, l1_table, vi), vi, 2));
                    assert(lookup_spec(&self.mem, l1_table, vi) == Ok::<u64, KError>(frames@[first + i] | USER_DATA_FLAGS));
                    assert forall|k: int| 0 <= k < num && k != i implies
                        #[trigger] table_path(&self.mem, l1_table, page_va(start, k)) == table_path(&om, l1_table, page_va(start, k))
                        && (i + 1 <= k ==> slot_free(&self.mem, l1_table, page_va(start, k)))
                        && (k < i ==> arm_path_linked(&self.mem, table_path(&om, l1_table, page_va(start, k)), page_va(start, k), 2)
                            && lookup_spec(&self.mem, l1_table, page_va(start, k)) == Ok::<u64, KError>(frames@[first + k] | USER_DATA_FLAGS)) by {
                        assert(table_path(&before, l1_table, page_va(start, k)) == table_path(&om, l1_table, page_va(start, k)));
                        assert(leaf_apart(&om, l1_table, vi, page_va(start, k)));
                        if k > i {
                            assert(slot_free(&before, l1_table, page_va(start, k)));
                        } else {
                            assert(lookup_spec(&before, l1_table, page_va(start, k)) == Ok::<u64, KError>(frames@[first + k] | USER_DATA_FLAGS));
                        }
                        lemma_slot_kept(&before, &self.mem, l1_table, vi, page_va(start, k), v);
                    }
                    assert forall|k: int| 0 <= k < i + 1 implies
                        arm_path_linked(&self.mem, table_path(&om, l1_table, page_va(start, k)), page_va(start, k), 2)
                        && #[trigger] lookup_spec(&self.mem, l1_table, page_va(start, k))
                            == Ok::<u64, KError>(frames@[first + k] | USER_DATA_FLAGS) by {
                        if k < i {
                            assert(table_path(&self.mem, l1_table, page_va(start, k)) == table_path(&om, l1_table, page_va(start, k)));
                        }
                    }
                }
            }
            i = i + 1;
        }
        let mut k: u64 = 0;
        while k < num
            invariant
                om == old(self).mem,
                ready == range_ready(&om, l1_table, start, frames@, first as int, num as int),
                ready ==> forall|j: int| 0 <= j < num ==>
                    #[trigger] lookup_spec(&self.mem, l1_table, page_va(start, j))
                        == Ok::<u64, KError>(frames@[first + j] | USER_DATA_FLAGS),
                forall|j: int| 0 <= j < k ==>
                    #[trigger] lookup_spec(&self.mem, l1_table, page_va(start, j))
                        == Ok::<u64, KError>(frames@[first + j] | USER_DATA_FLAGS),
                frames_len == frames@.len(),
                self.wf(),
                self.mem.base == old(self).mem.base,
                self.mem.words@.len() == old(self).mem.words@.len(),
                self.user_page_table == old(self).user_page_table,
                self.va_allocator == old(self).va_allocator,
                self.shared == old(self).shared,
                self.pfa.heap_end == old(self).pfa.heap_end,
                self.pfa.next_free >= old(self).pfa.next_free,
                num > 0,
                start + num * PAGE_SIZE <= u64::MAX,
                first + num <= frames@.len(),
                k <= num,
            decreases num - k,
        {
            let virt_addr = start + k * PAGE_SIZE;
            assert(virt_addr == page_va(start, k as int));
            let expected = frames[first + k as usize] | USER_DATA_FLAGS;
            let matches_frame = match lookup_page(&self.mem, l1_table, virt_addr) {
                Ok(e) => e == expected,
                Err(_) => false,
            };
            if !matches_frame {
                self.unmap_first_pages(l1_table, start, num);
                return false;
            }
            k = k + 1;
        }
        true
    }

    /// Reserves user virtual space for `size` bytes, backs it with fresh
    /// frames and maps them read/write for user mode; returns the start of
    /// the range (0 for an empty request).
    pub fn allocate_user_memory(&mut self, size: u64) -> (r: Result<u64, KError>)
        requires
            old(self).wf(),
            size <= u64::MAX - PAGE_SIZE,
            old(self).va_allocator.end_vaddr + pages_for(size) * PAGE_SIZE <= u64::MAX,
            old(self).va_allocator.next_vaddr + pages_for(size) * PAGE_SIZE <= u64::MAX,
        ensures
            old(self).user_page_table is Some ==> final(self).user_page_table == old(self).user_page_table,
            final(self).wf(),
            final(self).shared == old(self).shared,
            size == 0 ==> r == Ok::<u64, KError>(0) && final(self).mem == old(self).mem
                && final(self).pfa == old(self).pfa && final(self).va_allocator == old(self).va_allocator
                && final(self).user_page_table == old(self).user_page_table,
            r is Err ==> r == Err::<u64, KError>(KError::InternalError) || r == Err::<u64, KError>(KError::OutOfMemory),
            size > 0 && r is Ok ==> {
                let n = pages_for(size);
                let a = r->Ok_0;
                let f0 = if old(self).user_page_table is Some { old(self).pfa.next_free } else {
                    (old(self).pfa.next_free + PAGE_SIZE) as u64 };
                &&& final(self).user_page_table matches Some(l1) && forall|k: int| 0 <= k < n ==>
                    #[trigger] lookup_spec(&final(self).mem, l1, page_va(a, k))
                        == Ok::<u64, KError>(consecutive_frames(f0, n)[k] | USER_DATA_FLAGS)
                &&& old(self).user_page_table matches Some(l1) ==> block_free(&old(self).mem, l1, a as int, n)
                &&& final(self).va_allocator.next_vaddr == a + n * PAGE_SIZE
                &&& a + n * PAGE_SIZE <= old(self).va_allocator.end_vaddr
                &&& final(self).pfa.next_free >= old(self).pfa.next_free + n * PAGE_SIZE
            },
            ({
                let n = pages_for(size);
                (old(self).user_page_table matches Some(l1) && size > 0
                    && old(self).pfa.next_free + n * PAGE_SIZE <= old(self).pfa.heap_end
                    && (exists|c: int| block_candidate(old(self).va_allocator, c, n)
                        && #[trigger] block_free(&old(self).mem, l1, c, n))
                    && (forall|c: int| block_candidate(old(self).va_allocator, c, n)
                        && #[trigger] block_free(&old(self).mem, l1, c, n)
                        ==> range_ready(&old(self).mem, l1, c as u64, consecutive_frames(old(self).pfa.next_free, n), 0, n)))
                    ==> r is Ok
            }),
    {
        if size == 0 {
            return Ok(0);
        }
        let num_pages = (size + PAGE_SIZE - 1) / PAGE_SIZE;
        let ghost n = pages_for(size);
        let ghost ready = old(self).user_page_table is Some
            && old(self).pfa.next_free + n * PAGE_SIZE <= old(self).pfa.heap_end
            && (exists|c: int| block_candidate(old(self).va_allocator, c, n)
                && #[trigger] block_free(&old(self).mem, old(self).user_page_table->Some_0, c, n))
            && (forall|c: int| block_candidate(old(self).va_allocator, c, n)
                && #[trigger] block_free(&old(self).mem, old(self).user_page_table->Some_0, c, n)
                ==> range_ready(&old(self).mem, old(self).user_page_table->Some_0, c as u64,
                    consecutive_frames(old(self).pfa.next_free, n), 0, n));
        let ghost pfa0 = self.pfa.next_free;
        let l1_table = match self.get_current_user_page_table() {
            Some(t) => t,
            None => {
                return Err(KError::InternalError);
            },
        };
        proof {
            if ready {
                let c = choose|c: int| block_candidate(old(self).va_allocator, c, n)
                    && #[trigger] block_free(&old(self).mem, old(self).user_page_table->Some_0, c, n);
                assert(block_free(&self.mem, l1_table, c, n));
            }
        }
        let start_vaddr = match self.va_allocator.allocate_pages(num_pages, &self.mem, l1_table) {
            Ok(a) => a,
            Err(e) => {
                return Err(e);
            },
        };
        let ghost pfa1 = self.pfa.next_free;
        let frames = match self.allocate_frames(num_pages) {
            Some(v) => v,
            None => {
                return Err(KError::OutOfMemory);
            },
        };
        let ghost pfa2 = self.pfa.next_free;
        proof {
            assert(frames@ =~= consecutive_frames(pfa1, n));
            if ready {
                assert(block_free(&old(self).mem, l1_table, start_vaddr as int, n));
                assert(range_ready(&self.mem, l1_table, start_vaddr, frames@, 0, n));
            }
        }
        if !self.map_frames(l1_table, start_vaddr, &frames, 0, num_pages) {
            let mut j: usize = 0;
            while j < frames.len()
                invariant
                    j <= frames@.len(),
                decreases frames@.len() - j,
            {
                self.pfa.free_frame(frames[j]);
                j = j + 1;
            }
            return Err(KError::InternalError);
        }
        proof {
            assert(pfa0 <= pfa1);
            assert(pfa2 <= self.pfa.next_free);
            assert forall|k: int| 0 <= k < n implies
                #[trigger] lookup_spec(&self.mem, l1_table, page_va(start_vaddr, k))
                    == Ok::<u64, KError>(consecutive_frames(pfa1, n)[k] | USER_DATA_FLAGS) by {
                assert(frames@[0 + k] == frames@[k]);
            }
        }
        Ok(start_vaddr)
    }

    /// Removes the user mappings of the pages covering `size` bytes at
    /// `ptr`, freeing their frames when `free_frames` is set; stops with
    /// the error of the first page that cannot be unmapped.
    fn unmap_user_pages(&mut self, ptr: u64, size: u64, free_frames: bool) -> (r: Result<(), KError>)
        requires
            old(self).wf(),
            size <= u64::MAX - PAGE_SIZE,
            ptr + pages_for(size) * PAGE_SIZE <= u64::MAX,
        ensures
            final(self).wf(),
            final(self).shared == old(self).shared,
            final(self).va_allocator == old(self).va_allocator,
            ptr == 0 || size == 0 ==> r is Ok && final(self).mem == old(self).mem
                && final(self).user_page_table == old(self).user_page_table,
            ptr != 0 && size > 0 && ptr % PAGE_SIZE != 0 ==> r == Err::<(), KError>(KError::AddressNotPageAligned),
            r is Ok && ptr != 0 && size > 0 ==> (final(self).user_page_table matches Some(l1) &&
                forall|k: int| 0 <= k < pages_for(size) ==>
                    #[trigger] lookup_spec(&final(self).mem, l1, (ptr + k * PAGE_SIZE) as u64)
                        == Err::<u64, KError>(KError::BadAddress)),
            (old(self).user_page_table matches Some(l1) && range_mapped(&old(self).mem, l1, ptr, pages_for(size))) ==> r is Ok,
    {
        if ptr == 0 || size == 0 {
            return Ok(());
        }
        if ptr % PAGE_SIZE != 0 {
            return Err(KError::AddressNotPageAligned);
        }
        let num_pages = (size + PAGE_SIZE - 1) / PAGE_SIZE;
        let l1_table = match self.get_current_user_page_table() {
            Some(t) => t,
            None => {
                return Err(KError::InternalError);
            },
        };
        let ghost om = old(self).mem;
        let ghost ready = old(self).user_page_table == Some(l1_table) && range_mapped(&om, l1_table, ptr, num_pages as int);
        let mut i: u64 = 0;
        while i < num_pages
            invariant
                self.wf(),
                self.shared == old(self).shared,
                self.va_allocator == old(self).va_allocator,
                self.user_page_table == Some(l1_table),
                ptr != 0,
                size > 0,
                num_pages == pages_for(size),
                ptr % PAGE_SIZE == 0,
                ptr + num_pages * PAGE_SIZE <= u64::MAX,
                i <= num_pages,
                forall|k: int| 0 <= k < i ==>
                    #[trigger] lookup_spec(&self.mem, l1_table, (ptr + k * PAGE_SIZE) as u64)
                        == Err::<u64, KError>(KError::BadAddress),
                om == old(self).mem,
                old(self).user_page_table is Some ==> old(self).user_page_table == Some(l1_table),
                ready == (old(self).user_page_table == Some(l1_table) && range_mapped(&om, l1_table, ptr, num_pages as int)),
                ready ==> forall|k: int| i <= k < num_pages ==> {
                    let tk = table_path(&om, l1_table, page_va(ptr, k));
                    &&& #[trigger] table_path(&self.mem, l1_table, page_va(ptr, k)) == tk
                    &&& arm_path_linked(&self.mem, tk, page_va(ptr, k), 2)
                    &&& lookup_spec(&self.mem, l1_table, page_va(ptr, k)) == lookup_spec(&om, l1_table, page_va(ptr, k))
                },
                self.mem.base == om.base,
            decreases num_pages - i,
        {
            let virt_addr = ptr + i * PAGE_SIZE;
            let ghost before = self.mem;
            proof {
                if ready {
                    assert(virt_addr == page_va(ptr, i as int));
                    assert(table_path(&before, l1_table, page_va(ptr, i as int)) == table_path(&om, l1_table, page_va(ptr, i as int)));
                    assert(lookup_spec(&om, l1_table, page_va(ptr, i as int)) is Ok);
                    assert(lookup_spec(&before, l1_table, page_va(ptr, i as int)) is Ok);
                    assert(lookup_spec(&before, l1_table, virt_addr) is Ok);
                }
            }
            match unmap_page(&mut self.mem, l1_table, virt_addr) {
                Ok(phys_frame_addr) => {
                    if free_frames {
                        self.pfa.free_frame(phys_frame_addr);
                    }
                },
                Err(KError::BadAddress) => {
                    proof { assert(!ready); }
                    return Err(KError::BadAddress);
                },
                Err(e) => {
                    proof { assert(!ready); }
                    return Err(e);
                },
            }
            proof {
                if ready {
                    let vi = page_va(ptr, i as int);
                    assert forall|k: int| i + 1 <= k < num_pages implies {
                        let tk = table_path(&om, l1_table, page_va(ptr, k));
                        &&& #[trigger] table_path(&self.mem, l1_table, page_va(ptr, k)) == tk
                        &&& arm_path_linked(&self.mem, tk, page_va(ptr, k), 2)
                        &&& lookup_spec(&self.mem, l1_table, page_va(ptr, k)) == lookup_spec(&om, l1_table, page_va(ptr, k))
                    } by {
                        let vk = page_va(ptr, k);
                        assert(table_path(&before, l1_table, vk) == table_path(&om, l1_table, vk));
                        assert(leaf_apart(&om, l1_table, vi, vk));
                        lemma_slot_kept(&before, &self.mem, l1_table, vi, vk, 0);
                    }
                }
            }
            proof {
                let w = choose|w: int| 0 <= w < before.words@.len() && self.mem.words@ == before.words@.update(w, 0);
                assert forall|k: int| 0 <= k < i + 1 implies
                    #[trigger] lookup_spec(&self.mem, l1_table, (ptr + k * PAGE_SIZE) as u64)
                        == Err::<u64, KError>(KError::BadAddress) by {
                    if k < i {
                        let va = (ptr + k * PAGE_SIZE) as u64;
                        assert(va % PAGE_SIZE == 0);
                        assert(lookup_spec(&before, l1_table, va) == Err::<u64, KError>(KError::BadAddress));
                        lemma_arm_clear_keeps_unmapped(&before, &self.mem, w, l1_table, va, 0);
                    }
                }
            }
            i = i + 1;
        }
        Ok(())
    }

    /// Unmaps the user range and frees its frames.
    pub fn free_user_memory(&mut self, ptr: u64, size: u64) -> (r: Result<(), KError>)
        requires
            old(self).wf(),
            size <= u64::MAX - PAGE_SIZE,
            ptr + pages_for(size) * PAGE_SIZE <= u64::MAX,
        ensures
            final(self).wf(),
            final(self).shared == old(self).shared,
            final(self).va_allocator == old(self).va_allocator,
            ptr == 0 || size == 0 ==> r is Ok && final(self).mem == old(self).mem,
            ptr != 0 && size > 0 && ptr % PAGE_SIZE != 0 ==> r == Err::<(), KError>(KError::AddressNotPageAligned),
            r is Ok && ptr != 0 && size > 0 ==> (final(self).user_page_table matches Some(l1) &&
                forall|k: int| 0 <= k < pages_for(size) ==>
                    #[trigger] lookup_spec(&final(self).mem, l1, (ptr + k * PAGE_SIZE) as u64)
                        == Err::<u64, KError>(KError::BadAddress)),
            (old(self).user_page_table matches Some(l1) && range_mapped(&old(self).mem, l1, ptr, pages_for(size))) ==> r is Ok,
    {
        self.unmap_user_pages(ptr, size, true)
    }

    /// Creates a shared-memory object of `size` bytes backed by fresh frames
    /// (not yet mapped anywhere) and returns its handle. The allocator
    /// never takes frames back: when it runs short, the frames it did hand
    /// out stay used, and when the object table is full the frames taken
    /// for the object stay used as well.
    pub fn shared_mem_create(&mut self, size: u64) -> (r: Result<KHandle, KError>)
        requires
            old(self).wf(),
            size <= u64::MAX - PAGE_SIZE,
        ensures
            final(self).wf(),
            final(self).mem == old(self).mem,
            final(self).user_page_table == old(self).user_page_table,
            final(self).va_allocator == old(self).va_allocator,
            size == 0 ==> r == Err::<KHandle, KError>(KError::InvalidArgument)
                && final(self).shared == old(self).shared && final(self).pfa == old(self).pfa,
            r is Err ==> r == Err::<KHandle, KError>(KError::InvalidArgument)
                || r == Err::<KHandle, KError>(KError::OutOfMemory),
            r is Err ==> final(self).shared.objects@ == old(self).shared.objects@,
            size > 0 && old(self).pfa.next_free + pages_for(size) * PAGE_SIZE > old(self).pfa.heap_end
                ==> r == Err::<KHandle, KError>(KError::OutOfMemory)
                    && final(self).pfa.next_free == old(self).pfa.next_free + old(self).pfa.frames_left() * PAGE_SIZE,
            size > 0 && old(self).pfa.next_free + pages_for(size) * PAGE_SIZE <= old(self).pfa.heap_end
                ==> final(self).pfa.next_free == old(self).pfa.next_free + pages_for(size) * PAGE_SIZE,
            final(self).pfa.heap_start == old(self).pfa.heap_start,
            final(self).pfa.heap_end == old(self).pfa.heap_end,
            size > 0 && old(self).pfa.next_free + pages_for(size) * PAGE_SIZE <= old(self).pfa.heap_end
                && (exists|i: int| 0 <= i < MAX_SHARED_MEM_OBJECTS && #[trigger] old(self).shared.objects@[i] is None)
                ==> r is Ok,
            size > 0 && !(exists|i: int| 0 <= i < MAX_SHARED_MEM_OBJECTS && #[trigger] old(self).shared.objects@[i] is None)
                ==> r == Err::<KHandle, KError>(KError::OutOfMemory),
            r matches Ok(h) ==> final(self).shared.frames_of(h.0) matches Some(fr) && {
                &&& fr.len() == pages_for(size)
                &&& forall|k: int| 0 <= k < fr.len() ==> #[trigger] fr[k] == old(self).pfa.next_free + k * PAGE_SIZE
            },
    {
        if size == 0 {
            return Err(KError::InvalidArgument);
        }
        let num_pages = (size + PAGE_SIZE - 1) / PAGE_SIZE;
        let frames = match self.allocate_frames(num_pages) {
            Some(v) => v,
            None => {
                return Err(KError::OutOfMemory);
            },
        };
        let ghost fr = frames@;
        let r = self.shared.register_object(frames);
        r
    }

    /// Maps pages of the shared object `k_handle_value` starting `offset`
    /// bytes into it, `size` bytes long, into fresh user virtual space and
    /// returns the start of the mapping (0 for an empty request).
    pub fn shared_mem_map(&mut self, k_handle_value: u64, offset: u64, size: u64) -> (r: Result<u64, KError>)
        requires
            old(self).wf(),
            size <= u64::MAX - PAGE_SIZE,
            old(self).va_allocator.end_vaddr + pages_for(size) * PAGE_SIZE <= u64::MAX,
            old(self).va_allocator.next_vaddr + pages_for(size) * PAGE_SIZE <= u64::MAX,
        ensures
            old(self).user_page_table is Some ==> final(self).user_page_table == old(self).user_page_table,
            final(self).wf(),
            final(self).shared == old(self).shared,
            size == 0 ==> r == Ok::<u64, KError>(0) && final(self).mem == old(self).mem,
            size > 0 && offset % PAGE_SIZE != 0 ==> r == Err::<u64, KError>(KError::AddressNotPageAligned),
            size > 0 && offset % PAGE_SIZE == 0 && old(self).shared.frames_of(k_handle_value) is None
                ==> r == Err::<u64, KError>(KError::BadHandle),
            size > 0 && offset % PAGE_SIZE == 0 && (old(self).shared.frames_of(k_handle_value) matches Some(fr)
                && (offset / PAGE_SIZE >= fr.len() || offset / PAGE_SIZE + pages_for(size) > fr.len()))
                ==> r == Err::<u64, KError>(KError::InvalidArgument),
            size > 0 && r is Ok ==> {
                let n = pages_for(size);
                let a = r->Ok_0;
                let fr = old(self).shared.frames_of(k_handle_value)->Some_0;
                &&& final(self).user_page_table matches Some(l1) && forall|k: int| 0 <= k < n ==>
                    #[trigger] lookup_spec(&final(self).mem, l1, page_va(a, k))
                        == Ok::<u64, KError>(fr[offset / PAGE_SIZE + k] | USER_DATA_FLAGS)
                &&& final(self).va_allocator.next_vaddr == a + n * PAGE_SIZE
            },
            ({
                let n = pages_for(size);
                let fr = old(self).shared.frames_of(k_handle_value)->Some_0;
                (old(self).user_page_table matches Some(l1) && size > 0 && offset % PAGE_SIZE == 0
                    && old(self).shared.frames_of(k_handle_value) is Some
                    && offset / PAGE_SIZE + n <= fr.len()
                    && (exists|c: int| block_candidate(old(self).va_allocator, c, n)
                        && #[trigger] block_free(&old(self).mem, l1, c, n))
                    && (forall|c: int| block_candidate(old(self).va_allocator, c, n)
                        && #[trigger] block_free(&old(self).mem, l1, c, n)
                        ==> range_ready(&old(self).mem, l1, c as u64, fr, (offset / PAGE_SIZE) as int, n)))
                    ==> r is Ok
            }),
    {
        if size == 0 {
            return Ok(0);
        }
        if offset % PAGE_SIZE != 0 {
            return Err(KError::AddressNotPageAligned);
        }
        let handle = KHandle(k_handle_value);
        let frames: Vec<u64> = match self.shared.get_object_frames(&handle) {
            Ok(v) => v.clone(),
            Err(e) => {
                return Err(e);
            },
        };
        let object_size_pages = frames.len() as u64;
        let offset_pages = offset / PAGE_SIZE;
        let num_pages_to_map = (size + PAGE_SIZE - 1) / PAGE_SIZE;
        if offset_pages >= object_size_pages || num_pages_to_map > object_size_pages - offset_pages {
            return Err(KError::InvalidArgument);
        }
        let l1_table = match self.get_current_user_page_table() {
            Some(t) => t,
            None => {
                return Err(KError::InternalError);
            },
        };
        let ghost n = pages_for(size);
        let ghost ready = old(self).user_page_table is Some
            && (exists|c: int| block_candidate(old(self).va_allocator, c, n)
                && #[trigger] block_free(&old(self).mem, old(self).user_page_table->Some_0, c, n))
            && (forall|c: int| block_candidate(old(self).va_allocator, c, n)
                && #[trigger] block_free(&old(self).mem, old(self).user_page_table->Some_0, c, n)
                ==> range_ready(&old(self).mem, old(self).user_page_table->Some_0, c as u64,
                    old(self).shared.frames_of(k_handle_value)->Some_0, (offset / PAGE_SIZE) as int, n));
        proof {
            if ready {
                let c = choose|c: int| block_candidate(old(self).va_allocator, c, n)
                    && #[trigger] block_free(&old(self).mem, old(self).user_page_table->Some_0, c, n);
                assert(block_free(&self.mem, l1_table, c, n));
            }
        }
        let map_start_vaddr = match self.va_allocator.allocate_pages(num_pages_to_map, &self.mem, l1_table) {
            Ok(a) => a,
            Err(e) => {
                return Err(e);
            },
        };
        proof {
            if ready {
                assert(block_free(&old(self).mem, l1_table, map_start_vaddr as int, n));
                assert(range_ready(&self.mem, l1_table, map_start_vaddr, frames@, offset_pages as int, n));
            }
        }
        if !self.map_frames(l1_table, map_start_vaddr, &frames, offset_pages as usize, num_pages_to_map) {
            return Err(KError::InternalError);
        }
        Ok(map_start_vaddr)
    }

    /// Removes the user mappings of a shared region; its frames stay with
    /// the shared object.
    pub fn shared_mem_unmap(&mut self, ptr: u64, size: u64) -> (r: Result<(), KError>)
        requires
            old(self).wf(),
            size <= u64::MAX - PAGE_SIZE,
            ptr + pages_for(size) * PAGE_SIZE <= u64::MAX,
        ensures
            final(self).wf(),
            final(self).shared == old(self).shared,
            final(self).va_allocator == old(self).va_allocator,
            ptr == 0 || size == 0 ==> r is Ok && final(self).mem == old(self).mem,
            ptr != 0 && size > 0 && ptr % PAGE_SIZE != 0 ==> r == Err::<(), KError>(KError::AddressNotPageAligned),
            r is Ok && ptr != 0 && size > 0 ==> (final(self).user_page_table matches Some(l1) &&
                forall|k: int| 0 <= k < pages_for(size) ==>
                    #[trigger] lookup_spec(&final(self).mem, l1, (ptr + k * PAGE_SIZE) as u64)
                        == Err::<u64, KError>(KError::BadAddress)),
            (old(self).user_page_table matches Some(l1) && range_mapped(&old(self).mem, l1, ptr, pages_for(size))) ==> r is Ok,
    {
        self.unmap_user_pages(ptr, size, false)
    }

    /// Takes `num` frames from the frame allocator; `None` (with nothing
    /// kept) when it runs out.
    fn allocate_frames(&mut self, num: u64) -> (r: Option<Vec<u64>>)
        ensures
            final(self).mem == old(self).mem,
            final(self).user_page_table == old(self).user_page_table,
            final(self).va_allocator == old(self).va_allocator,
            final(self).shared == old(self).shared,
            final(self).pfa.heap_start == old(self).pfa.heap_start,
            final(self).pfa.heap_end == old(self).pfa.heap_end,
            r matches Some(v) ==> {
                &&& v@.len() == num
                &&& forall|k: int| 0 <= k < num ==> #[trigger] v@[k] == old(self).pfa.next_free + k * PAGE_SIZE
                &&& final(self).pfa.next_free == old(self).pfa.next_free + num * PAGE_SIZE
            },
            r is None ==> old(self).pfa.next_free + num * PAGE_SIZE > old(self).pfa.heap_end,
            r is Some && num > 0 ==> old(self).pfa.next_free + num * PAGE_SIZE <= old(self).pfa.heap_end,
            r is None ==> final(self).pfa.next_free == old(self).pfa.next_free + old(self).pfa.frames_left() * PAGE_SIZE,
    {
        let mut frames: Vec<u64> = Vec::new();
        let mut i: u64 = 0;
        while i < num
            invariant
                self.mem == old(self).mem,
                self.user_page_table == old(self).user_page_table,
                self.va_allocator == old(self).va_allocator,
                self.shared == old(self).shared,
                self.pfa.heap_start == old(self).pfa.heap_start,
                self.pfa.heap_end == old(self).pfa.heap_end,
                i <= num,
                frames@.len() == i,
                self.pfa.next_free == old(self).pfa.next_free + i * PAGE_SIZE,
                i > 0 ==> self.pfa.next_free <= self.pfa.heap_end,
                forall|k: int| 0 <= k < i ==> #[trigger] frames@[k] == old(self).pfa.next_free + k * PAGE_SIZE,
            decreases num - i,
        {
            match self.pfa.allocate_frame() {
                Some(f) => {
                    frames.push(f);
                },
                None => {
                    proof {
                        let o = old(self).pfa.next_free as int;
                        let e = self.pfa.heap_end as int;
                        if o <= e {
                            let d = e - o;
                            assert(i * PAGE_SIZE <= d);
                            assert(d - i * PAGE_SIZE < PAGE_SIZE);
                            assert(d / 4096 == i as int) by (nonlinear_arith)
                                requires i * 4096 <= d, d - i * 4096 < 4096, 0 <= i;
                        } else {
                            assert(i == 0);
                        }
                    }
                    let mut j: usize = 0;
                    while j < frames.len()
                        invariant
                            j <= frames@.len(),
                        decreases frames@.len() - j,
                    {
                        self.pfa.free_frame(frames[j]);
                        j = j + 1;
                    }
                    return None;
                },
            }
            i = i + 1;
        }
        Some(frames)
    }
}

} // verus!
