//! x86_64 four-level paging: entry encoding, the table walk, mapping,
//! unmapping and address translation over the kernel's physical memory.
use vstd::prelude::*;
use crate::physmem::{PhysMemory, FRAME_SIZE, WORDS_PER_FRAME, PHYS_LIMIT, word_index,
    lemma_entries_distinct, lemma_word_index_in_range};
use crate::karnal::KError;

verus! {

/// Errors of the x86_64 MMU layer.
#[derive(Debug, Copy, Clone, PartialEq, Eq)]
pub enum MmuError {
    /// No physical frame could be obtained for a new page table.
    OutOfMemory,
    /// The address is already mapped.
    AlreadyMapped,
    /// The address is not mapped.
    NotMapped,
    /// An argument is invalid (for instance an unaligned address).
    InvalidArgument,
    /// The page-table structure is broken or inconsistent.
    PageTableCorrupted,
    /// An intermediate table expected during the walk is missing.
    MissingPageTable,
    /// The operation is not supported (for instance a huge page on the way).
    NotSupported,
    /// Internal MMU error.
    InternalError,
}

impl MmuError {
    /// The numeric code handed to the system-call layer.
    pub fn code(&self) -> (r: i64)
        ensures
            r == match *self {
                MmuError::OutOfMemory => -201,
                MmuError::AlreadyMapped => -202,
                MmuError::NotMapped => -203,
                MmuError::InvalidArgument => -204,
                MmuError::PageTableCorrupted => -205,
                MmuError::MissingPageTable => -206,
                MmuError::NotSupported => -207,
                MmuError::InternalError => -299,
            },
    {
        match *self {
            MmuError::OutOfMemory => -201,
            MmuError::AlreadyMapped => -202,
            MmuError::NotMapped => -203,
            MmuError::InvalidArgument => -204,
            MmuError::PageTableCorrupted => -205,
            MmuError::MissingPageTable => -206,
            MmuError::NotSupported => -207,
            MmuError::InternalError => -299,
        }
    }
}

/// 4 KiB page.
pub const PAGE_SIZE_4K: u64 = 4096;
/// 2 MiB page.
pub const PAGE_SIZE_2M: u64 = 0x20_0000;
/// 1 GiB page.
pub const PAGE_SIZE_1G: u64 = 0x4000_0000;

/// Address bits 12-51 of an entry.
pub const PHYSICAL_ADDRESS_MASK_4K: u64 = 0x000F_FFFF_FFFF_F000;
/// Address bits 21-51 of an entry.
pub const PHYSICAL_ADDRESS_MASK_2M: u64 = 0x000F_FFFF_FFE0_0000;
/// Address bits 30-51 of an entry.
pub const PHYSICAL_ADDRESS_MASK_1G: u64 = 0x000F_FFFF_C000_0000;

/// P: present.
pub const FLAG_PRESENT: u64 = 0x1;
/// R/W: writable.
pub const FLAG_WRITABLE: u64 = 0x2;
/// U/S: reachable from user mode.
pub const FLAG_USER_ACCESSIBLE: u64 = 0x4;
/// PWT: write-through caching.
pub const FLAG_WRITE_THROUGH: u64 = 0x8;
/// PCD: caching disabled.
pub const FLAG_CACHE_DISABLED: u64 = 0x10;
/// A: accessed.
pub const FLAG_ACCESSED: u64 = 0x20;
/// D: dirty.
pub const FLAG_DIRTY: u64 = 0x40;
/// PS: the entry maps a huge page instead of pointing to a table.
pub const FLAG_HUGE_PAGE: u64 = 0x80;
/// G: global translation.
pub const FLAG_GLOBAL: u64 = 0x100;
/// NX: no instruction fetch.
pub const FLAG_NO_EXECUTE: u64 = 0x8000_0000_0000_0000;

/// Flags of an x86_64 page-table entry, held as the raw 64-bit pattern.
#[derive(Debug, Copy, Clone, PartialEq, Eq)]
pub struct PageFlags(pub u64);

impl PageFlags {
    /// The PRESENT flag alone.
    pub fn present() -> (r: Self)
        ensures
            r.0 == FLAG_PRESENT,
    {
        PageFlags(FLAG_PRESENT)
    }

    /// The WRITABLE flag alone.
    pub fn writable() -> (r: Self)
        ensures
            r.0 == FLAG_WRITABLE,
    {
        PageFlags(FLAG_WRITABLE)
    }

    /// The USER_ACCESSIBLE flag alone.
    pub fn user_accessible() -> (r: Self)
        ensures
            r.0 == FLAG_USER_ACCESSIBLE,
    {
        PageFlags(FLAG_USER_ACCESSIBLE)
    }

    /// The WRITE_THROUGH flag alone.
    pub fn write_through() -> (r: Self)
        ensures
            r.0 == FLAG_WRITE_THROUGH,
    {
        PageFlags(FLAG_WRITE_THROUGH)
    }

    /// The CACHE_DISABLED flag alone.
    pub fn cache_disabled() -> (r: Self)
        ensures
            r.0 == FLAG_CACHE_DISABLED,
    {
        PageFlags(FLAG_CACHE_DISABLED)
    }

    /// The ACCESSED flag alone.
    pub fn accessed() -> (r: Self)
        ensures
            r.0 == FLAG_ACCESSED,
    {
        PageFlags(FLAG_ACCESSED)
    }

    /// The DIRTY flag alone.
    pub fn dirty() -> (r: Self)
        ensures
            r.0 == FLAG_DIRTY,
    {
        PageFlags(FLAG_DIRTY)
    }

    /// The HUGE_PAGE flag alone.
    pub fn huge_page() -> (r: Self)
        ensures
            r.0 == FLAG_HUGE_PAGE,
    {
        PageFlags(FLAG_HUGE_PAGE)
    }

    /// The GLOBAL flag alone.
    pub fn global() -> (r: Self)
        ensures
            r.0 == FLAG_GLOBAL,
    {
        PageFlags(FLAG_GLOBAL)
    }

    /// The NO_EXECUTE flag alone.
    pub fn no_execute() -> (r: Self)
        ensures
            r.0 == FLAG_NO_EXECUTE,
    {
        PageFlags(FLAG_NO_EXECUTE)
    }


    /// Wraps a raw flag pattern.
    pub fn new(flags: u64) -> (r: Self)
        ensures
            r.0 == flags,
    {
        PageFlags(flags)
    }

    /// True when every bit of `flag` is set in `self`.
    pub fn contains(&self, flag: Self) -> (r: bool)
        ensures
            r == (self.0 & flag.0 == flag.0),
    {
        (self.0 & flag.0) == flag.0
    }

    /// `self` with the bits of `flag` added.
    pub fn with(&self, flag: Self) -> (r: Self)
        ensures
            r.0 == self.0 | flag.0,
    {
        PageFlags(self.0 | flag.0)
    }

    /// `self` with the bits of `flag` removed.
    pub fn without(&self, flag: Self) -> (r: Self)
        ensures
            r.0 == self.0 & !flag.0,
    {
        PageFlags(self.0 & !flag.0)
    }

    /// The raw flag pattern.
    pub fn raw(&self) -> (r: u64)
        ensures
            r == self.0,
    {
        self.0
    }
}

/// Adding a flag makes it contained; removing a non-empty flag makes it not
/// contained; neither touches the bits outside the flag.
pub proof fn lemma_flags_with_without(f: u64, g: u64)
    ensures
        (f | g) & g == g,
        g != 0 ==> (f & !g) & g != g,
        forall|h: u64| h & g == 0 ==> ((f | g) & h == f & h && (f & !g) & h == f & h),
{
    assert((f | g) & g == g) by (bit_vector);
    assert(g != 0 ==> (f & !g) & g != g) by (bit_vector);
    assert(forall|h: u64| h & g == 0 ==> ((f | g) & h == f & h && (f & !g) & h == f & h))
        by (bit_vector);
}

/// The physical address held by entry value `e` for a page of `page_size`,
/// as `PageTableEntry::physical_address` reads it.
pub open spec fn entry_phys(e: u64, page_size: u64) -> u64 {
    if page_size == PAGE_SIZE_4K {
        e & PHYSICAL_ADDRESS_MASK_4K
    } else if page_size == PAGE_SIZE_2M {
        if e & FLAG_HUGE_PAGE == FLAG_HUGE_PAGE { e & PHYSICAL_ADDRESS_MASK_2M } else { 0 }
    } else if page_size == PAGE_SIZE_1G {
        if e & FLAG_HUGE_PAGE == FLAG_HUGE_PAGE { e & PHYSICAL_ADDRESS_MASK_1G } else { 0 }
    } else {
        0
    }
}

/// A page-table entry (PML4E, PDPTE, PDE or PTE): one raw 64-bit word.
#[derive(Copy, Clone)]
pub struct PageTableEntry(pub u64);

impl PageTableEntry {
    /// Entry holding `phys_addr` combined with `flags`.
    pub fn new(phys_addr: u64, flags: PageFlags) -> (r: Self)
        ensures
            r.0 == phys_addr | flags.0,
    {
        PageTableEntry(phys_addr | flags.raw())
    }

    /// The empty (not present) entry.
    pub fn empty() -> (r: Self)
        ensures
            r.0 == 0,
    {
        PageTableEntry(0)
    }

    /// The physical address held by the entry for a page of `page_size`;
    /// 0 for an unsupported size, and for 2 MiB or 1 GiB when the entry is
    /// not a huge page.
    pub fn physical_address(&self, page_size: u64) -> (r: u64)
        ensures
            r == entry_phys(self.0, page_size),
    {
        if page_size == PAGE_SIZE_4K {
            self.0 & PHYSICAL_ADDRESS_MASK_4K
        } else if page_size == PAGE_SIZE_2M {
            if self.flags().contains(PageFlags::huge_page()) {
                self.0 & PHYSICAL_ADDRESS_MASK_2M
            } else {
                0
            }
        } else if page_size == PAGE_SIZE_1G {
            if self.flags().contains(PageFlags::huge_page()) {
                self.0 & PHYSICAL_ADDRESS_MASK_1G
            } else {
                0
            }
        } else {
            0
        }
    }

    /// The entry's bits read as flags.
    pub fn flags(&self) -> (r: PageFlags)
        ensures
            r.0 == self.0,
    {
        PageFlags(self.0)
    }

    /// Whether the present bit is set.
    pub fn is_present(&self) -> (r: bool)
        ensures
            r == (self.0 & FLAG_PRESENT == FLAG_PRESENT),
    {
        self.flags().contains(PageFlags::present())
    }

    /// Whether the huge-page bit is set.
    pub fn is_huge_page(&self) -> (r: bool)
        ensures
            r == (self.0 & FLAG_HUGE_PAGE == FLAG_HUGE_PAGE),
    {
        self.flags().contains(PageFlags::huge_page())
    }

    /// Overwrites the raw value.
    pub fn set(&mut self, value: u64)
        ensures
            final(self).0 == value,
    {
        self.0 = value;
    }

    /// Stores `phys_addr` combined with `flags`.
    pub fn set_entry(&mut self, phys_addr: u64, flags: PageFlags)
        ensures
            final(self).0 == phys_addr | flags.0,
    {
        self.0 = phys_addr | flags.raw();
    }

    /// Makes the entry empty.
    pub fn clear(&mut self)
        ensures
            final(self).0 == 0,
    {
        self.0 = 0;
    }

    /// The raw value.
    pub fn raw(&self) -> (r: u64)
        ensures
            r == self.0,
    {
        self.0
    }
}

/// A 4 KiB-aligned address below 2^52 combined with flags that hold no
/// address bits reads back as the same address.
pub proof fn lemma_entry_address_roundtrip(phys_addr: u64, flags: u64)
    requires
        phys_addr % PAGE_SIZE_4K == 0,
        phys_addr < PHYS_LIMIT,
        flags & PHYSICAL_ADDRESS_MASK_4K == 0,
    ensures
        entry_phys(phys_addr | flags, PAGE_SIZE_4K) == phys_addr,
{
    assert((phys_addr | flags) & 0x000F_FFFF_FFFF_F000u64 == phys_addr) by (bit_vector)
        requires
            phys_addr % 4096 == 0,
            phys_addr < 0x10_0000_0000_0000u64,
            flags & 0x000F_FFFF_FFFF_F000u64 == 0;
}

} // verus!

verus! {

/// Index into the table at `level` (0 = PML4, 1 = PDPT, 2 = PD, 3 = PT)
/// selected by the virtual address `va`.
pub open spec fn level_index(va: u64, level: int) -> u64 {
    if level == 0 {
        (va >> 39u64) & 0x1FF
    } else if level == 1 {
        (va >> 30u64) & 0x1FF
    } else if level == 2 {
        (va >> 21u64) & 0x1FF
    } else {
        (va >> 12u64) & 0x1FF
    }
}

/// Every level index selects one of the 512 entries of a table.
pub proof fn lemma_level_index_bound(va: u64, level: int)
    ensures
        level_index(va, level) < 512,
{
    assert((va >> 39u64) & 0x1FF < 512) by (bit_vector);
    assert((va >> 30u64) & 0x1FF < 512) by (bit_vector);
    assert((va >> 21u64) & 0x1FF < 512) by (bit_vector);
    assert((va >> 12u64) & 0x1FF < 512) by (bit_vector);
}

fn level_index_exec(va: u64, level: u64) -> (r: u64)
    ensures
        r == level_index(va, level as int),
        r < 512,
{
    proof { lemma_level_index_bound(va, level as int); }
    if level == 0 {
        (va >> 39u64) & 0x1FF
    } else if level == 1 {
        (va >> 30u64) & 0x1FF
    } else if level == 2 {
        (va >> 21u64) & 0x1FF
    } else {
        (va >> 12u64) & 0x1FF
    }
}

/// The page size the walk assumes for a huge entry met at `level`
/// (1 GiB at the PML4, 2 MiB at the PDPT and at the page directory).
pub open spec fn huge_size(level: int) -> u64 {
    if level == 0 {
        PAGE_SIZE_1G
    } else {
        PAGE_SIZE_2M
    }
}

/// The result of translating `va` from the table at `table`, which sits at
/// `level` of the hierarchy.
pub open spec fn translate_at(mem: &PhysMemory, table: u64, va: u64, level: nat) -> Result<u64, MmuError>
    decreases 4 - level,
{
    if level >= 4 {
        Err(MmuError::InternalError)
    } else if !mem.frame_ok(table) {
        Err(MmuError::PageTableCorrupted)
    } else {
        let e = mem.entry(table, level_index(va, level as int) as int);
        if e & FLAG_PRESENT != FLAG_PRESENT {
            Err(MmuError::NotMapped)
        } else if level < 3 {
            if e & FLAG_HUGE_PAGE == FLAG_HUGE_PAGE {
                let size = huge_size(level as int);
                Ok((entry_phys(e, size) + (va & ((size - 1) as u64))) as u64)
            } else {
                translate_at(mem, entry_phys(e, PAGE_SIZE_4K), va, level + 1)
            }
        } else {
            Ok((entry_phys(e, PAGE_SIZE_4K) + (va & 0xFFF)) as u64)
        }
    }
}

/// Translation through present, non-huge PML4 and PDPT entries: a present
/// huge page-directory entry maps a 2 MiB page, so the address becomes
/// that page's base (bits 21..51 of the entry) plus its low 21 bits;
/// otherwise a present page-table entry maps a 4 KiB page, so the address
/// becomes the frame (bits 12..51 of the entry) plus its low 12 bits.
pub proof fn lemma_translate_pages(mem: &PhysMemory, root: u64, va: u64)
    requires
        mem.frame_ok(root),
        mem.entry(root, level_index(va, 0) as int) & FLAG_PRESENT == FLAG_PRESENT,
        mem.entry(root, level_index(va, 0) as int) & FLAG_HUGE_PAGE != FLAG_HUGE_PAGE,
        mem.frame_ok(mem.entry(root, level_index(va, 0) as int) & 0x000F_FFFF_FFFF_F000),
        ({
            let t1 = mem.entry(root, level_index(va, 0) as int) & 0x000F_FFFF_FFFF_F000;
            &&& mem.entry(t1, level_index(va, 1) as int) & FLAG_PRESENT == FLAG_PRESENT
            &&& mem.entry(t1, level_index(va, 1) as int) & FLAG_HUGE_PAGE != FLAG_HUGE_PAGE
            &&& mem.frame_ok(mem.entry(t1, level_index(va, 1) as int) & 0x000F_FFFF_FFFF_F000)
        }),
    ensures
        ({
            let t1 = mem.entry(root, level_index(va, 0) as int) & 0x000F_FFFF_FFFF_F000;
            let t2 = mem.entry(t1, level_index(va, 1) as int) & 0x000F_FFFF_FFFF_F000;
            let e2 = mem.entry(t2, level_index(va, 2) as int);
            let t3 = e2 & 0x000F_FFFF_FFFF_F000;
            let e3 = mem.entry(t3, level_index(va, 3) as int);
            &&& e2 & FLAG_PRESENT == FLAG_PRESENT && e2 & FLAG_HUGE_PAGE == FLAG_HUGE_PAGE ==>
                translate_at(mem, root, va, 0) == Ok::<u64, MmuError>(((e2 & 0x000F_FFFF_FFE0_0000) + (va & 0x1F_FFFF)) as u64)
            &&& e2 & FLAG_PRESENT == FLAG_PRESENT && e2 & FLAG_HUGE_PAGE != FLAG_HUGE_PAGE && mem.frame_ok(t3)
                && e3 & FLAG_PRESENT == FLAG_PRESENT ==>
                translate_at(mem, root, va, 0) == Ok::<u64, MmuError>(((e3 & 0x000F_FFFF_FFFF_F000) + (va & 0xFFF)) as u64)
            &&& e2 & FLAG_PRESENT != FLAG_PRESENT ==> translate_at(mem, root, va, 0) == Err::<u64, MmuError>(MmuError::NotMapped)
        }),
{
    let t1 = mem.entry(root, level_index(va, 0) as int) & 0x000F_FFFF_FFFF_F000;
    let t2 = mem.entry(t1, level_index(va, 1) as int) & 0x000F_FFFF_FFFF_F000;
    let e2 = mem.entry(t2, level_index(va, 2) as int);
    let t3 = e2 & 0x000F_FFFF_FFFF_F000;
    assert(translate_at(mem, root, va, 0) == translate_at(mem, t1, va, 1));
    assert(translate_at(mem, t1, va, 1) == translate_at(mem, t2, va, 2));
    if e2 & FLAG_PRESENT == FLAG_PRESENT && e2 & FLAG_HUGE_PAGE != FLAG_HUGE_PAGE && mem.frame_ok(t3) {
        assert(translate_at(mem, t2, va, 2) == translate_at(mem, t3, va, 3));
    }
}

/// The frame of the last-level table reached for `va` without creating
/// tables, as the unmapping walk finds it.
pub open spec fn walk_existing(mem: &PhysMemory, table: u64, va: u64, level: nat) -> Result<u64, MmuError>
    decreases 4 - level,
{
    if level >= 4 {
        Err(MmuError::InternalError)
    } else if !mem.frame_ok(table) {
        Err(MmuError::PageTableCorrupted)
    } else if level == 3 {
        Ok(table)
    } else {
        let e = mem.entry(table, level_index(va, level as int) as int);
        if e & FLAG_PRESENT != FLAG_PRESENT {
            Err(MmuError::MissingPageTable)
        } else if e & FLAG_HUGE_PAGE == FLAG_HUGE_PAGE {
            Err(MmuError::NotSupported)
        } else {
            walk_existing(mem, entry_phys(e, PAGE_SIZE_4K), va, level + 1)
        }
    }
}

/// Step `k` of a walk path: the entry of `path[k]` selected by `va` is a
/// present, non-huge pointer to `path[k + 1]`.
pub open spec fn link_ok(mem: &PhysMemory, path: Seq<u64>, va: u64, k: int) -> bool {
    let e = mem.entry(path[k], level_index(va, k) as int);
    &&& e & FLAG_PRESENT == FLAG_PRESENT
    &&& e & FLAG_HUGE_PAGE != FLAG_HUGE_PAGE
    &&& entry_phys(e, PAGE_SIZE_4K) == path[k + 1]
}

/// `path` lists the tables a walk for `va` visits from level 0 to level
/// `upto`, each a frame of the memory and each linked to the next.
pub open spec fn path_linked(mem: &PhysMemory, path: Seq<u64>, va: u64, upto: int) -> bool {
    &&& path.len() == upto + 1
    &&& forall|k: int| 0 <= k <= upto ==> mem.frame_ok(#[trigger] path[k])
    &&& forall|k: int| 0 <= k < upto ==> #[trigger] link_ok(mem, path, va, k)
}

/// Along a linked path, resolving the address from any level gives the
/// same result as resolving it from the last table.
proof fn lemma_translate_along_path(mem: &PhysMemory, path: Seq<u64>, va: u64, k: int)
    requires
        mem.wf(),
        path_linked(mem, path, va, 3),
        0 <= k <= 3,
    ensures
        translate_at(mem, path[k], va, k as nat) == translate_at(mem, path[3], va, 3),
        walk_existing(mem, path[k], va, k as nat) == Ok::<u64, MmuError>(path[3]),
    decreases 3 - k,
{
    if k < 3 {
        assert(link_ok(mem, path, va, k));
        assert(mem.frame_ok(path[k]));
        lemma_translate_along_path(mem, path, va, k + 1);
    } else {
        assert(mem.frame_ok(path[3]));
    }
}

/// After clearing the last-level entry of a linked path, the address
/// translates to `NotMapped` from every level of the path.
proof fn lemma_cleared_not_mapped(old_mem: &PhysMemory, mem: &PhysMemory, path: Seq<u64>, va: u64, k: int)
    requires
        old_mem.wf(),
        mem.wf(),
        mem.base == old_mem.base,
        path_linked(old_mem, path, va, 3),
        mem.words@ == old_mem.words@.update(
            word_index(old_mem.base, path[3], level_index(va, 3) as int), 0),
        0 <= k <= 3,
    ensures
        translate_at(mem, path[k], va, k as nat) == Err::<u64, MmuError>(MmuError::NotMapped),
    decreases 3 - k,
{
    let w = word_index(old_mem.base, path[3], level_index(va, 3) as int);
    assert(old_mem.frame_ok(path[k]));
    lemma_level_index_bound(va, k);
    lemma_level_index_bound(va, 3);
    lemma_word_index_in_range(old_mem, path[k], level_index(va, k) as int);
    if k < 3 {
        assert(link_ok(old_mem, path, va, k));
        let wk = word_index(old_mem.base, path[k], level_index(va, k) as int);
        if wk == w {
            assert(mem.entry(path[k], level_index(va, k) as int) == 0);
            lemma_zero_entry_not_present();
        } else {
            assert(mem.entry(path[k], level_index(va, k) as int)
                == old_mem.entry(path[k], level_index(va, k) as int));
            lemma_cleared_not_mapped(old_mem, mem, path, va, k + 1);
        }
    } else {
        assert(mem.entry(path[3], level_index(va, 3) as int) == 0);
        lemma_zero_entry_not_present();
    }
}

/// Writing a word outside the selected entries of a path keeps it linked.
proof fn lemma_path_kept(old_mem: &PhysMemory, mem: &PhysMemory, path: Seq<u64>, va: u64, upto: int)
    requires
        old_mem.wf(),
        mem.wf(),
        mem.base == old_mem.base,
        mem.words@.len() == old_mem.words@.len(),
        path_linked(old_mem, path, va, upto),
        0 <= upto <= 3,
        forall|k: int| 0 <= k < upto ==> mem.words@[word_index(old_mem.base, #[trigger] path[k], level_index(va, k) as int)]
            == old_mem.words@[word_index(old_mem.base, path[k], level_index(va, k) as int)],
    ensures
        path_linked(mem, path, va, upto),
{
    assert forall|k: int| 0 <= k < upto implies #[trigger] link_ok(mem, path, va, k) by {
        assert(link_ok(old_mem, path, va, k));
        assert(old_mem.frame_ok(path[k]));
    }
    assert forall|k: int| 0 <= k <= upto implies mem.frame_ok(#[trigger] path[k]) by {
        assert(old_mem.frame_ok(path[k]));
    }
}

/// The tables the entries of `mem` lead the walk for `va` through, from
/// the root to the page table.
pub open spec fn x86_table_path(mem: &PhysMemory, root: u64, va: u64) -> Seq<u64> {
    let t1 = entry_phys(mem.entry(root, level_index(va, 0) as int), PAGE_SIZE_4K);
    let t2 = entry_phys(mem.entry(t1, level_index(va, 1) as int), PAGE_SIZE_4K);
    let t3 = entry_phys(mem.entry(t2, level_index(va, 2) as int), PAGE_SIZE_4K);
    seq![root, t1, t2, t3]
}

/// The word the walk for `va` reads at `level`.
pub open spec fn walk_word(mem: &PhysMemory, root: u64, va: u64, level: int) -> int {
    word_index(mem.base, x86_table_path(mem, root, va)[level], level_index(va, level) as int)
}

/// The page-table entry of `a` is none of the words the walk for `b` reads.
pub open spec fn leaf_clear_of(mem: &PhysMemory, root: u64, a: u64, b: u64) -> bool {
    &&& walk_word(mem, root, a, 3) != walk_word(mem, root, b, 0)
    &&& walk_word(mem, root, a, 3) != walk_word(mem, root, b, 1)
    &&& walk_word(mem, root, a, 3) != walk_word(mem, root, b, 2)
    &&& walk_word(mem, root, a, 3) != walk_word(mem, root, b, 3)
}

/// The `k`-th page of the range at `start`.
pub open spec fn range_page(start: u64, k: int) -> u64 {
    (start + k * PAGE_SIZE_4K) as u64
}

/// Every page of the `n` pages at `start` is reached through existing,
/// non-huge tables, its entry is present exactly when `present` says, and
/// no page's entry is a word another page's walk reads.
pub open spec fn range_walkable(mem: &PhysMemory, root: u64, start: u64, n: int, present: bool) -> bool {
    &&& start % PAGE_SIZE_4K == 0
    &&& forall|k: int| 0 <= k < n ==> #[trigger] path_linked(mem, x86_table_path(mem, root, range_page(start, k)), range_page(start, k), 3)
    &&& forall|k: int| 0 <= k < n ==> (#[trigger] mem.entry(x86_table_path(mem, root, range_page(start, k))[3],
        level_index(range_page(start, k), 3) as int) & FLAG_PRESENT == FLAG_PRESENT) == present
    &&& forall|j: int, k: int| 0 <= j < n && 0 <= k < n && j != k ==>
        #[trigger] leaf_clear_of(mem, root, range_page(start, j), range_page(start, k))
}

/// The walks of pages `from..n` of the range at `start`, and their
/// page-table entries, are in `mem` as they were in `om`.
pub open spec fn pages_kept(mem: &PhysMemory, om: &PhysMemory, root: u64, start: u64, from: int, n: int) -> bool {
    forall|k: int| from <= k < n ==> {
        let tp = x86_table_path(om, root, range_page(start, k));
        &&& #[trigger] x86_table_path(mem, root, range_page(start, k)) == tp
        &&& path_linked(mem, tp, range_page(start, k), 3)
        &&& mem.entry(tp[3], level_index(range_page(start, k), 3) as int)
            == om.entry(tp[3], level_index(range_page(start, k), 3) as int)
    }
}

/// Page `i` of a walkable range whose walks are kept is reached through
/// its table path, ends in the page table the path names, and has its
/// entry as it was.
proof fn lemma_range_page_reached(om: &PhysMemory, mem: &PhysMemory, root: u64, start: u64, n: int, i: int, present: bool)
    requires
        mem.wf(),
        range_walkable(om, root, start, n, present),
        pages_kept(mem, om, root, start, i, n),
        0 <= i < n,
        start + n * PAGE_SIZE_4K <= u64::MAX,
    ensures
        ({
            let va = range_page(start, i);
            let tp = x86_table_path(om, root, va);
            &&& walk_existing(mem, root, va, 0) == Ok::<u64, MmuError>(tp[3])
            &&& (mem.entry(tp[3], level_index(va, 3) as int) & FLAG_PRESENT == FLAG_PRESENT) == present
            &&& va % PAGE_SIZE_4K == 0
            &&& x86_table_path(mem, root, va) == tp
            &&& path_linked(mem, tp, va, 3)
        }),
{
    let va = range_page(start, i);
    let tp = x86_table_path(om, root, va);
    assert(x86_table_path(mem, root, va) == tp);
    lemma_translate_along_path(mem, tp, va, 0);
    assert(path_linked(om, tp, va, 3));
    assert((om.entry(tp[3], level_index(va, 3) as int) & FLAG_PRESENT == FLAG_PRESENT) == present);
    assert(va % PAGE_SIZE_4K == 0) by (nonlinear_arith)
        requires start % PAGE_SIZE_4K == 0, va == start + i * PAGE_SIZE_4K, 0 <= i;
}

/// Writing the page-table entry of page `i` keeps the walks of the later
/// pages of a walkable range.
proof fn lemma_range_step(om: &PhysMemory, before: &PhysMemory, mem: &PhysMemory, root: u64, start: u64, n: int, i: int, v: u64)
    requires
        before.wf(),
        mem.wf(),
        mem.base == before.base,
        before.base == om.base,
        forall|k: int| i < k < n ==> #[trigger] leaf_clear_of(om, root, range_page(start, i), range_page(start, k)),
        pages_kept(before, om, root, start, i, n),
        0 <= i < n,
        mem.words@ == before.words@.update(walk_word(before, root, range_page(start, i), 3), v),
    ensures
        pages_kept(mem, om, root, start, i + 1, n),
{
    let va = range_page(start, i);
    let tp = x86_table_path(om, root, va);
    assert(x86_table_path(before, root, va) == tp);
    lemma_level_index_bound(va, 3);
    assert(before.frame_ok(tp[3]));
    lemma_word_index_in_range(before, tp[3], level_index(va, 3) as int);
    assert forall|k: int| i + 1 <= k < n implies {
        let tk = x86_table_path(om, root, range_page(start, k));
        &&& #[trigger] x86_table_path(mem, root, range_page(start, k)) == tk
        &&& path_linked(mem, tk, range_page(start, k), 3)
        &&& mem.entry(tk[3], level_index(range_page(start, k), 3) as int)
            == om.entry(tk[3], level_index(range_page(start, k), 3) as int)
    } by {
        let vk = range_page(start, k);
        assert(x86_table_path(before, root, vk) == x86_table_path(om, root, vk));
        assert(leaf_clear_of(om, root, va, vk));
        assert(walk_word(before, root, va, 3) == walk_word(om, root, va, 3));
        assert(walk_word(before, root, vk, 0) == walk_word(om, root, vk, 0));
        assert(walk_word(before, root, vk, 1) == walk_word(om, root, vk, 1));
        assert(walk_word(before, root, vk, 2) == walk_word(om, root, vk, 2));
        assert(walk_word(before, root, vk, 3) == walk_word(om, root, vk, 3));
        lemma_x86_walk_kept(before, mem, root, va, vk, v);
    }
}

/// Writing the page-table entry of `a` leaves the walk for `b`, and its
/// entry, as they were.
proof fn lemma_x86_walk_kept(m1: &PhysMemory, m2: &PhysMemory, root: u64, a: u64, b: u64, v: u64)
    requires
        m1.wf(),
        m2.wf(),
        m2.base == m1.base,
        path_linked(m1, x86_table_path(m1, root, b), b, 3),
        leaf_clear_of(m1, root, a, b),
        0 <= walk_word(m1, root, a, 3) < m1.words@.len(),
        m2.words@ == m1.words@.update(walk_word(m1, root, a, 3), v),
    ensures
        x86_table_path(m2, root, b) == x86_table_path(m1, root, b),
        path_linked(m2, x86_table_path(m1, root, b), b, 3),
        m2.entry(x86_table_path(m1, root, b)[3], level_index(b, 3) as int)
            == m1.entry(x86_table_path(m1, root, b)[3], level_index(b, 3) as int),
{
    let pb = x86_table_path(m1, root, b);
    lemma_level_index_bound(b, 0);
    lemma_level_index_bound(b, 1);
    lemma_level_index_bound(b, 2);
    lemma_level_index_bound(b, 3);
    assert(m1.frame_ok(pb[0]));
    assert(m1.frame_ok(pb[1]));
    assert(m1.frame_ok(pb[2]));
    assert(m1.frame_ok(pb[3]));
    lemma_word_index_in_range(m1, pb[0], level_index(b, 0) as int);
    lemma_word_index_in_range(m1, pb[1], level_index(b, 1) as int);
    lemma_word_index_in_range(m1, pb[2], level_index(b, 2) as int);
    lemma_word_index_in_range(m1, pb[3], level_index(b, 3) as int);
    assert(walk_word(m1, root, b, 0) == word_index(m1.base, pb[0], level_index(b, 0) as int));
    assert(walk_word(m1, root, b, 1) == word_index(m1.base, pb[1], level_index(b, 1) as int));
    assert(walk_word(m1, root, b, 2) == word_index(m1.base, pb[2], level_index(b, 2) as int));
    assert(walk_word(m1, root, b, 3) == word_index(m1.base, pb[3], level_index(b, 3) as int));
    let wa = walk_word(m1, root, a, 3);
    assert(wa != walk_word(m1, root, b, 0));
    assert(wa != walk_word(m1, root, b, 1));
    assert(0 <= walk_word(m1, root, b, 0) < m1.words@.len());
    assert(0 <= walk_word(m1, root, b, 1) < m1.words@.len());
    assert(0 <= walk_word(m1, root, b, 2) < m1.words@.len());
    assert(m2.words@[walk_word(m1, root, b, 0)] == m1.words@[walk_word(m1, root, b, 0)]);
    assert(m2.words@[walk_word(m1, root, b, 1)] == m1.words@[walk_word(m1, root, b, 1)]);
    assert(m2.entry(pb[0], level_index(b, 0) as int) == m1.entry(pb[0], level_index(b, 0) as int));
    assert(m2.entry(pb[1], level_index(b, 1) as int) == m1.entry(pb[1], level_index(b, 1) as int));
    assert(m2.entry(pb[2], level_index(b, 2) as int) == m1.entry(pb[2], level_index(b, 2) as int));
    assert(m2.entry(pb[3], level_index(b, 3) as int) == m1.entry(pb[3], level_index(b, 3) as int));
    assert(x86_table_path(m2, root, b) =~= pb);
    lemma_path_kept(m1, m2, pb, b, 3);
}

fn vec_contains(v: &Vec<u64>, x: u64) -> (r: bool)
    ensures
        r == v@.contains(x),
{
    let mut i: usize = 0;
    while i < v.len()
        invariant
            i <= v@.len(),
            forall|j: int| 0 <= j < i ==> v@[j] != x,
        decreases v@.len() - i,
    {
        if v[i] == x {
            assert(v@[i as int] == x);
            return true;
        }
        i = i + 1;
    }
    false
}

/// The entry value written for a newly created intermediate table: the
/// table's frame, present, writable and reachable from user mode.
pub open spec fn table_entry_value(frame: u64) -> u64 {
    frame | ((FLAG_PRESENT | FLAG_WRITABLE) | FLAG_USER_ACCESSIBLE)
}

/// A zero entry is not present.
proof fn lemma_zero_entry_not_present()
    ensures
        0u64 & FLAG_PRESENT != FLAG_PRESENT,
{
    assert(0u64 & 1u64 != 1u64) by (bit_vector);
}

/// The `n` frames the allocator hands out from its `k`-th request on are
/// frames of the memory, none of them one of the tables in `path` or
/// handed out twice.
pub open spec fn fresh_frames<A: FrameAllocator>(mem: &PhysMemory, alloc: A, k: u64, n: nat, path: Seq<u64>) -> bool
    decreases n,
{
    n == 0 || ({
        let f = alloc.frame_at(k)->Some_0;
        &&& k < u64::MAX
        &&& alloc.frame_at(k) is Some
        &&& mem.frame_ok(f)
        &&& !path.contains(f)
        &&& fresh_frames(mem, alloc, (k + 1) as u64, (n - 1) as nat, path.push(f))
    })
}

/// The walk for `va` from `table` at `level` reaches a page table: the
/// tables that exist are frames of the memory reached through present,
/// non-huge entries, and the tables it has to create take the frames the
/// allocator hands out from now on.
pub open spec fn x86_walk_can_create<A: FrameAllocator>(mem: &PhysMemory, alloc: A, table: u64, va: u64, level: nat,
    path: Seq<u64>) -> bool
    decreases 3 - level,
{
    if level >= 3 {
        true
    } else {
        let e = mem.entry(table, level_index(va, level as int) as int);
        if e & FLAG_PRESENT == FLAG_PRESENT {
            let next = entry_phys(e, PAGE_SIZE_4K);
            &&& e & FLAG_HUGE_PAGE != FLAG_HUGE_PAGE
            &&& mem.frame_ok(next)
            &&& x86_walk_can_create(mem, alloc, next, va, level + 1, path.push(next))
        } else {
            fresh_frames(mem, alloc, 0, (3 - level) as nat, path)
        }
    }
}

/// Makes the frame the allocator handed out (`got`) the table that entry
/// `index` of `table` points to: zeroes it and writes the link. `None`
/// gives `OutOfMemory`; a frame outside the memory, or one of the tables on
/// the walk `path`, gives `PageTableCorrupted`; either way nothing changes.
fn link_new_table(mem: &mut PhysMemory, path: &Vec<u64>, table: u64, index: u64, got: Option<u64>) -> (r: Result<u64, MmuError>)
    requires
        old(mem).wf(),
        old(mem).frame_ok(table),
        path@.contains(table),
        index < 512,
    ensures
        final(mem).wf(),
        final(mem).base == old(mem).base,
        final(mem).words@.len() == old(mem).words@.len(),
        got is None ==> r == Err::<u64, MmuError>(MmuError::OutOfMemory) && final(mem).words@ == old(mem).words@,
        got is Some && (!old(mem).frame_ok(got->Some_0) || path@.contains(got->Some_0)) ==>
            r == Err::<u64, MmuError>(MmuError::PageTableCorrupted) && final(mem).words@ == old(mem).words@,
        got is Some && old(mem).frame_ok(got->Some_0) && !path@.contains(got->Some_0) ==> {
            let f = got->Some_0;
            &&& r == Ok::<u64, MmuError>(f)
            &&& final(mem).frame_zero(f)
            &&& final(mem).entry(table, index as int) == table_entry_value(f)
            &&& forall|j: int| 0 <= j < old(mem).words@.len()
                && !(word_index(old(mem).base, f, 0) <= j < word_index(old(mem).base, f, WORDS_PER_FRAME as int))
                && j != word_index(old(mem).base, table, index as int)
                ==> #[trigger] final(mem).words@[j] == old(mem).words@[j]
        },
{
    let frame = match got {
        None => {
            return Err(MmuError::OutOfMemory);
        },
        Some(f) => f,
    };
    if !mem.frame_valid(frame) || vec_contains(path, frame) {
        return Err(MmuError::PageTableCorrupted);
    }
    let ghost before = *mem;
    mem.zero_frame(frame);
    let new_entry = PageTableEntry::new(
        frame,
        PageFlags::present().with(PageFlags::writable()).with(PageFlags::user_accessible()),
    );
    let ghost before2 = *mem;
    mem.write_entry(table, index, new_entry.raw());
    proof {
        assert forall|i: int| 0 <= i < WORDS_PER_FRAME implies #[trigger] mem.entry(frame, i) == 0 by {
            assert(before2.entry(frame, i) == 0);
            lemma_entries_distinct(&before2, frame, i, table, index as int);
            lemma_word_index_in_range(&before2, frame, i);
        }
    }
    Ok(frame)
}

/// A supplier of physical frames for new page tables; the kernel's physical
/// memory manager implements it.
pub trait FrameAllocator {
    /// What the `k`-th request from now gets in this state (counting from
    /// 0): a frame, or `None` when none is left.
    spec fn frame_at(&self, k: u64) -> Option<u64>;

    /// One free 4 KiB frame, or `None` when none is left; the requests after
    /// it get what they would have got one request later.
    fn allocate_frame(&mut self) -> (r: Option<u64>)
        ensures
            r == old(self).frame_at(0),
            forall|k: u64| k < u64::MAX ==> #[trigger] final(self).frame_at(k) == old(self).frame_at((k + 1) as u64);

    /// Gives back a frame obtained from `allocate_frame`.
    fn deallocate_frame(&mut self, frame_addr: u64);
}

/// A bump allocator handing out `remaining` consecutive frames starting at
/// `next_free`; freed frames are not reused. It stands in for the kernel's
/// physical memory manager and does hand out frames (one hundred from
/// 16 MiB by default), so that page tables can be built with it before
/// that manager exists.
pub struct PlaceholderFrameAllocator {
    pub next_free: u64,
    pub remaining: u64,
}

impl PlaceholderFrameAllocator {
    /// One hundred frames starting at 16 MiB.
    pub fn new() -> (r: Self)
        ensures
            r.next_free == 0x100_0000,
            r.remaining == 100,
    {
        PlaceholderFrameAllocator { next_free: 0x100_0000, remaining: 100 }
    }

    /// Hands out the next frame, or `None` when the supply is used up or the
    /// next frame would leave the address space.
    pub fn allocate(&mut self) -> (r: Option<u64>)
        ensures
            old(self).remaining > 0 && old(self).next_free <= u64::MAX - PAGE_SIZE_4K ==> {
                &&& r == Some(old(self).next_free)
                &&& final(self).next_free == old(self).next_free + PAGE_SIZE_4K
                &&& final(self).remaining == old(self).remaining - 1
            },
            !(old(self).remaining > 0 && old(self).next_free <= u64::MAX - PAGE_SIZE_4K) ==> {
                &&& r is None
                &&& *final(self) == *old(self)
            },
    {
        if self.remaining > 0 && self.next_free <= u64::MAX - PAGE_SIZE_4K {
            let addr = self.next_free;
            self.next_free = self.next_free + PAGE_SIZE_4K;
            self.remaining = self.remaining - 1;
            Some(addr)
        } else {
            None
        }
    }
}

impl FrameAllocator for PlaceholderFrameAllocator {
    open spec fn frame_at(&self, k: u64) -> Option<u64> {
        if k < self.remaining && self.next_free + k * PAGE_SIZE_4K <= u64::MAX - PAGE_SIZE_4K {
            Some((self.next_free + k * PAGE_SIZE_4K) as u64)
        } else {
            None
        }
    }

    fn allocate_frame(&mut self) -> (r: Option<u64>)
        ensures
            old(self).remaining > 0 && old(self).next_free <= u64::MAX - PAGE_SIZE_4K ==> {
                &&& r == Some(old(self).next_free)
                &&& final(self).next_free == old(self).next_free + PAGE_SIZE_4K
                &&& final(self).remaining == old(self).remaining - 1
            },
            !(old(self).remaining > 0 && old(self).next_free <= u64::MAX - PAGE_SIZE_4K) ==> {
                &&& r is None
                &&& *final(self) == *old(self)
            },
    {
        self.allocate()
    }

    fn deallocate_frame(&mut self, frame_addr: u64) {
    }
}

/// Manages x86_64 page tables held in the kernel's physical memory.
pub struct X86MmuManager {}

impl X86MmuManager {
    /// A manager.
    pub fn new() -> (r: Self) {
        X86MmuManager {}
    }

    /// Translates `virt_addr` through the hierarchy rooted at
    /// `page_table_root_phys`, honouring huge entries on the way.
    pub fn translate_address(&self, mem: &PhysMemory, page_table_root_phys: u64, virt_addr: u64) -> (r: Result<u64, MmuError>)
        requires
            mem.wf(),
        ensures
            r == translate_at(mem, page_table_root_phys, virt_addr, 0),
    {
        let mut table = page_table_root_phys;
        let mut level: u64 = 0;
        while level < 4
            invariant
                mem.wf(),
                level <= 4,
                translate_at(mem, page_table_root_phys, virt_addr, 0) == translate_at(mem, table, virt_addr, level as nat),
            decreases 4 - level,
        {
            if !mem.frame_valid(table) {
                return Err(MmuError::PageTableCorrupted);
            }
            let index = level_index_exec(virt_addr, level);
            let entry = PageTableEntry(mem.read_entry(table, index));
            if !entry.is_present() {
                return Err(MmuError::NotMapped);
            }
            if level < 3 {
                if entry.is_huge_page() {
                    let size = if level == 0 { PAGE_SIZE_1G } else { PAGE_SIZE_2M };
                    let base = entry.physical_address(size);
                    let offset = virt_addr & (size - 1);
                    proof { lemma_phys_plus_offset(entry.0, size, virt_addr); }
                    return Ok(base + offset);
                } else {
                    table = entry.physical_address(PAGE_SIZE_4K);
                }
            } else {
                let base = entry.physical_address(PAGE_SIZE_4K);
                let offset = virt_addr & (PAGE_SIZE_4K - 1);
                proof { lemma_phys_plus_offset(entry.0, PAGE_SIZE_4K, virt_addr); }
                return Ok(base + offset);
            }
            level = level + 1;
        }
        Err(MmuError::InternalError)
    }

    /// Maps the 4 KiB page at `virt_addr` to `phys_addr` with `flags` (the
    /// present bit is added), creating missing intermediate tables with
    /// frames from `allocator`.
    #[verifier::rlimit(100)]
    #[verifier::spinoff_prover]
    pub fn map_page<A: FrameAllocator>(
        &self,
        mem: &mut PhysMemory,
        page_table_root_phys: u64,
        virt_addr: u64,
        phys_addr: u64,
        flags: PageFlags,
        allocator: &mut A,
    ) -> (r: Result<(), MmuError>)
        requires
            old(mem).wf(),
        ensures
            final(mem).wf(),
            final(mem).base == old(mem).base,
            final(mem).words@.len() == old(mem).words@.len(),
            (r == Err::<(), MmuError>(MmuError::InvalidArgument)) <==> (virt_addr % PAGE_SIZE_4K != 0
                || phys_addr % PAGE_SIZE_4K != 0),
            (virt_addr % PAGE_SIZE_4K != 0 || phys_addr % PAGE_SIZE_4K != 0) ==> final(mem).words@ == old(mem).words@
                && *final(allocator) == *old(allocator),
            r is Ok ==> translate_at(final(mem), page_table_root_phys, virt_addr, 0) == Ok::<u64, MmuError>(
                (((phys_addr | flags.0 | FLAG_PRESENT) & PHYSICAL_ADDRESS_MASK_4K) + (virt_addr & 0xFFF)) as u64),
            translate_at(old(mem), page_table_root_phys, virt_addr, 0) is Ok ==> {
                &&& r is Err
                &&& final(mem).words@ == old(mem).words@
            },
            r is Ok ==> (walk_existing(final(mem), page_table_root_phys, virt_addr, 0) matches Ok(t)
                && final(mem).entry(t, level_index(virt_addr, 3) as int) == phys_addr | flags.0 | FLAG_PRESENT),
            virt_addr % PAGE_SIZE_4K == 0 && phys_addr % PAGE_SIZE_4K == 0 ==> match walk_existing(old(mem), page_table_root_phys, virt_addr, 0) {
                Ok(t) => if old(mem).entry(t, level_index(virt_addr, 3) as int) & FLAG_PRESENT == FLAG_PRESENT {
                    &&& r == Err::<(), MmuError>(MmuError::AlreadyMapped)
                    &&& final(mem).words@ == old(mem).words@
                    &&& *final(allocator) == *old(allocator)
                } else {
                    &&& r is Ok
                    &&& final(mem).words@ == old(mem).words@.update(
                        word_index(old(mem).base, t, level_index(virt_addr, 3) as int), phys_addr | flags.0 | FLAG_PRESENT)
                    &&& *final(allocator) == *old(allocator)
                },
                Err(MmuError::NotSupported) => r == Err::<(), MmuError>(MmuError::AlreadyMapped)
                    && final(mem).words@ == old(mem).words@ && *final(allocator) == *old(allocator),
                Err(MmuError::PageTableCorrupted) => r == Err::<(), MmuError>(MmuError::PageTableCorrupted)
                    && final(mem).words@ == old(mem).words@ && *final(allocator) == *old(allocator),
                Err(MmuError::MissingPageTable) => match old(allocator).frame_at(0) {
                    None => r == Err::<(), MmuError>(MmuError::OutOfMemory) && final(mem).words@ == old(mem).words@,
                    Some(f) => !old(mem).frame_ok(f) ==> r == Err::<(), MmuError>(MmuError::PageTableCorrupted)
                        && final(mem).words@ == old(mem).words@,
                },
                Err(_) => true,
            },
            virt_addr % PAGE_SIZE_4K == 0 && phys_addr % PAGE_SIZE_4K == 0 && old(mem).frame_ok(page_table_root_phys)
                && x86_walk_can_create(old(mem), *old(allocator), page_table_root_phys, virt_addr, 0, seq![page_table_root_phys])
                && (walk_existing(old(mem), page_table_root_phys, virt_addr, 0) is Ok ==>
                    old(mem).entry(walk_existing(old(mem), page_table_root_phys, virt_addr, 0)->Ok_0,
                        level_index(virt_addr, 3) as int) & FLAG_PRESENT != FLAG_PRESENT)
                ==> r is Ok,
    {
        if virt_addr % PAGE_SIZE_4K != 0 || phys_addr % PAGE_SIZE_4K != 0 {
            return Err(MmuError::InvalidArgument);
        }
        if !mem.frame_valid(page_table_root_phys) {
            return Err(MmuError::PageTableCorrupted);
        }
        let ghost old_mem = *old(mem);
        let mut path: Vec<u64> = Vec::new();
        path.push(page_table_root_phys);
        let mut table = page_table_root_phys;
        let mut level: u64 = 0;
        let ghost mut allocated = false;
        let ghost oa = *old(allocator);
        let ghost cw = old_mem.frame_ok(page_table_root_phys)
            && x86_walk_can_create(&old_mem, oa, page_table_root_phys, virt_addr, 0, seq![page_table_root_phys]);
        let ghost mut taken: u64 = 0;
        proof {
            assert(path@ =~= seq![page_table_root_phys]);
        }
        while level < 3
            invariant
                oa == *old(allocator),
                cw == (old_mem.frame_ok(page_table_root_phys)
                    && x86_walk_can_create(&old_mem, oa, page_table_root_phys, virt_addr, 0, seq![page_table_root_phys])),
                cw && !allocated ==> x86_walk_can_create(&old_mem, oa, table, virt_addr, level as nat, path@),
                allocated ==> oa.frame_at(0) is Some && old_mem.frame_ok(oa.frame_at(0)->Some_0),
                !allocated ==> taken == 0,
                taken <= level,
                cw && allocated ==> {
                    &&& fresh_frames(&old_mem, oa, taken, (3 - level) as nat, path@)
                    &&& mem.frame_zero(table)
                    &&& taken <= 3
                    &&& forall|j: u64| j + taken <= 3 ==> #[trigger] allocator.frame_at(j) == oa.frame_at((j + taken) as u64)
                },
                mem.wf(),
                mem.base == old_mem.base,
                mem.words@.len() == old_mem.words@.len(),
                old_mem.wf(),
                old_mem.base == old(mem).base,
                old_mem.words@ == old(mem).words@,
                old_mem == *old(mem),
                virt_addr % PAGE_SIZE_4K == 0,
                phys_addr % PAGE_SIZE_4K == 0,
                0 <= level <= 3,
                path@.len() == level + 1,
                path@[0] == page_table_root_phys,
                path@[level as int] == table,
                path_linked(mem, path@, virt_addr, level as int),
                !allocated ==> mem.words@ == old_mem.words@,
                !allocated ==> *allocator == *old(allocator),
                !allocated ==> walk_existing(&old_mem, page_table_root_phys, virt_addr, 0)
                    == walk_existing(mem, table, virt_addr, level as nat),
                walk_existing(&old_mem, page_table_root_phys, virt_addr, 0) is Ok
                    || walk_existing(&old_mem, page_table_root_phys, virt_addr, 0) == Err::<u64, MmuError>(MmuError::NotSupported)
                    || walk_existing(&old_mem, page_table_root_phys, virt_addr, 0) == Err::<u64, MmuError>(MmuError::PageTableCorrupted)
                    ==> !allocated,
                translate_at(&old_mem, page_table_root_phys, virt_addr, 0) is Ok ==> {
                    &&& !allocated
                    &&& translate_at(&old_mem, page_table_root_phys, virt_addr, 0)
                        == translate_at(mem, table, virt_addr, level as nat)
                },
            decreases 3 - level,
        {
            let index = level_index_exec(virt_addr, level);
            let entry = PageTableEntry(mem.read_entry(table, index));
            let next: u64;
            proof {
                if cw {
                    lemma_level_index_bound(virt_addr, level as int);
                    if allocated {
                        assert(mem.entry(table, index as int) == 0);
                        lemma_zero_entry_not_present();
                    } else {
                        assert(entry.0 == old_mem.entry(table, index as int));
                    }
                }
            }
            if entry.is_present() {
                if entry.is_huge_page() {
                    return Err(MmuError::AlreadyMapped);
                }
                next = entry.physical_address(PAGE_SIZE_4K);
                if !mem.frame_valid(next) {
                    proof {
                        assert(walk_existing(mem, next, virt_addr, (level + 1) as nat)
                            == Err::<u64, MmuError>(MmuError::PageTableCorrupted));
                    }
                    return Err(MmuError::PageTableCorrupted);
                }
            } else {
                proof {
                    if !allocated {
                        assert(walk_existing(mem, table, virt_addr, level as nat) == Err::<u64, MmuError>(MmuError::MissingPageTable));
                    }
                }
                proof {
                    if cw {
                        lemma_level_index_bound(virt_addr, level as int);
                        if allocated {
                            assert(mem.entry(table, index as int) == 0);
                            assert(allocator.frame_at(0) == oa.frame_at(taken));
                        } else {
                            assert(entry.0 == old_mem.entry(table, index as int));
                            assert(fresh_frames(&old_mem, oa, 0, (3 - level) as nat, path@));
                        }
                        assert(fresh_frames(&old_mem, oa, taken, (3 - level) as nat, path@));
                    }
                }
                let ghost before_alloc = *allocator;
                let got = allocator.allocate_frame();
                proof {
                    assert(path@.contains(path@[level as int]));
                    assert(mem.frame_ok(table));
                }
                let ghost before = *mem;
                match link_new_table(mem, &path, table, index, got) {
                    Err(e) => {
                        match e {
                            MmuError::PageTableCorrupted => {
                                match got {
                                    Some(f) => {
                                        allocator.deallocate_frame(f);
                                    },
                                    None => {},
                                }
                            },
                            _ => {},
                        }
                        return Err(e);
                    },
                    Ok(frame) => {
                        proof {
                            assert forall|k: int| 0 <= k < level implies mem.words@[word_index(old_mem.base, #[trigger] path@[k], level_index(virt_addr, k) as int)]
                                == before.words@[word_index(old_mem.base, path@[k], level_index(virt_addr, k) as int)] by {
                                assert(link_ok(&before, path@, virt_addr, k));
                                assert(before.frame_ok(path@[k]));
                                lemma_level_index_bound(virt_addr, k);
                                lemma_word_index_in_range(&before, path@[k], level_index(virt_addr, k) as int);
                                assert(path@.contains(path@[k]));
                                assert(before.entry(table, index as int) == entry.0);
                                if word_index(old_mem.base, path@[k], level_index(virt_addr, k) as int)
                                    == word_index(old_mem.base, table, index as int) {
                                    assert(before.entry(path@[k], level_index(virt_addr, k) as int) == entry.0);
                                    assert(false);
                                }
                            }
                            lemma_path_kept(&before, mem, path@, virt_addr, level as int);
                            lemma_table_entry_links(frame);
                            assert(mem.entry(table, index as int) == frame | ((1u64 | 2u64) | 4u64));
                            if cw {
                                assert forall|j: u64| j + (taken + 1) <= 3 implies
                                    #[trigger] allocator.frame_at(j) == oa.frame_at((j + taken + 1) as u64) by {
                                    assert(allocator.frame_at(j) == before_alloc.frame_at((j + 1) as u64));
                                    if allocated {
                                        assert(before_alloc.frame_at((j + 1) as u64) == oa.frame_at((j + 1 + taken) as u64));
                                    }
                                }
                            }
                            if !allocated {
                                assert(got == oa.frame_at(0));
                                assert(old_mem.frame_ok(frame));
                            }
                            if cw {
                                assert(got == oa.frame_at(taken));
                                assert(frame == oa.frame_at(taken)->Some_0);
                                assert(fresh_frames(&old_mem, oa, (taken + 1) as u64, (3 - (level + 1)) as nat, path@.push(frame)));
                            }
                            allocated = true;
                            taken = (taken + 1) as u64;
                        }
                        next = frame;
                    },
                }
            }
            proof {
                let p2 = path@.push(next);
                assert(p2[level as int] == table);
                assert(p2[level + 1] == next);
                assert(link_ok(mem, p2, virt_addr, level as int));
                assert forall|k: int| 0 <= k < level + 1 implies #[trigger] link_ok(mem, p2, virt_addr, k) by {
                    if k < level {
                        assert(link_ok(mem, path@, virt_addr, k));
                    }
                }
                assert forall|k: int| 0 <= k <= level + 1 implies mem.frame_ok(#[trigger] p2[k]) by {
                    if k <= level {
                        assert(mem.frame_ok(path@[k]));
                    }
                }
            }
            path.push(next);
            table = next;
            level = level + 1;
        }
        let index = level_index_exec(virt_addr, 3);
        let pte = PageTableEntry(mem.read_entry(table, index));
        proof {
            if cw {
                if allocated {
                    assert(mem.entry(table, index as int) == 0);
                    lemma_zero_entry_not_present();
                } else {
                    assert(mem.frame_ok(path@[3]));
                    assert(walk_existing(&old_mem, page_table_root_phys, virt_addr, 0) == Ok::<u64, MmuError>(table));
                }
            }
        }
        if pte.is_present() {
            return Err(MmuError::AlreadyMapped);
        }
        let new_pte = PageTableEntry::new(phys_addr, flags.with(PageFlags::present()));
        let ghost before3 = *mem;
        mem.write_entry(table, index, new_pte.raw());
        proof {
            assert forall|k: int| 0 <= k < 3 implies mem.words@[word_index(old_mem.base, #[trigger] path@[k], level_index(virt_addr, k) as int)]
                == before3.words@[word_index(old_mem.base, path@[k], level_index(virt_addr, k) as int)] by {
                assert(link_ok(&before3, path@, virt_addr, k));
                assert(before3.frame_ok(path@[k]));
                lemma_level_index_bound(virt_addr, k);
                lemma_word_index_in_range(&before3, path@[k], level_index(virt_addr, k) as int);
                assert(before3.entry(table, index as int) == pte.0);
                if word_index(old_mem.base, path@[k], level_index(virt_addr, k) as int)
                    == word_index(old_mem.base, table, index as int) {
                    assert(before3.entry(path@[k], level_index(virt_addr, k) as int) == pte.0);
                    assert(false);
                }
            }
            lemma_path_kept(&before3, mem, path@, virt_addr, 3);
            lemma_translate_along_path(mem, path@, virt_addr, 0);
            let fl = flags.0;
            assert((phys_addr | fl | 1u64) & 1u64 == 1u64) by (bit_vector);
            assert(phys_addr | (fl | 1u64) == phys_addr | fl | 1u64) by (bit_vector);
            assert(mem.entry(path@[3], level_index(virt_addr, 3) as int) == phys_addr | fl | 1u64);
            lemma_phys_plus_offset(phys_addr | flags.0 | 1u64, PAGE_SIZE_4K, virt_addr);
        }
        Ok(())
    }

    /// Removes the 4 KiB mapping of `virt_addr`; intermediate tables stay.
    pub fn unmap_page<A: FrameAllocator>(
        &self,
        mem: &mut PhysMemory,
        page_table_root_phys: u64,
        virt_addr: u64,
        allocator: &mut A,
    ) -> (r: Result<(), MmuError>)
        requires
            old(mem).wf(),
        ensures
            final(mem).wf(),
            final(mem).base == old(mem).base,
            virt_addr % PAGE_SIZE_4K != 0 ==> r == Err::<(), MmuError>(MmuError::InvalidArgument)
                && final(mem).words@ == old(mem).words@,
            virt_addr % PAGE_SIZE_4K == 0 ==> match walk_existing(old(mem), page_table_root_phys, virt_addr, 0) {
                Err(e) => r == Err::<(), MmuError>(e) && final(mem).words@ == old(mem).words@,
                Ok(t) => if old(mem).entry(t, level_index(virt_addr, 3) as int) & FLAG_PRESENT == FLAG_PRESENT {
                    &&& r is Ok
                    &&& final(mem).words@ == old(mem).words@.update(
                        word_index(old(mem).base, t, level_index(virt_addr, 3) as int), 0)
                } else {
                    r == Err::<(), MmuError>(MmuError::NotMapped) && final(mem).words@ == old(mem).words@
                },
            },
            r is Ok ==> translate_at(final(mem), page_table_root_phys, virt_addr, 0)
                == Err::<u64, MmuError>(MmuError::NotMapped),
            r is Ok ==> exists|w: int| 0 <= w < old(mem).words@.len()
                && final(mem).words@ == old(mem).words@.update(w, 0),
            *final(allocator) == *old(allocator),
    {
        if virt_addr % PAGE_SIZE_4K != 0 {
            return Err(MmuError::InvalidArgument);
        }
        let ghost old_mem = *old(mem);
        let ghost mut path: Seq<u64> = seq![page_table_root_phys];
        let mut table = page_table_root_phys;
        let mut level: u64 = 0;
        if !mem.frame_valid(table) {
            return Err(MmuError::PageTableCorrupted);
        }
        while level < 3
            invariant
                mem.wf(),
                mem.base == old(mem).base,
                mem.words@ == old(mem).words@,
                old_mem.base == old(mem).base,
                old_mem.words@ == old(mem).words@,
                virt_addr % PAGE_SIZE_4K == 0,
                level <= 3,
                path.len() == level + 1,
                path[0] == page_table_root_phys,
                path[level as int] == table,
                path_linked(mem, path, virt_addr, level as int),
                walk_existing(mem, page_table_root_phys, virt_addr, 0) == walk_existing(mem, table, virt_addr, level as nat),
            decreases 3 - level,
        {
            let index = level_index_exec(virt_addr, level);
            let entry = PageTableEntry(mem.read_entry(table, index));
            if !entry.is_present() {
                return Err(MmuError::MissingPageTable);
            }
            if entry.is_huge_page() {
                return Err(MmuError::NotSupported);
            }
            let next = entry.physical_address(PAGE_SIZE_4K);
            if !mem.frame_valid(next) {
                assert(walk_existing(mem, next, virt_addr, (level + 1) as nat)
                    == Err::<u64, MmuError>(MmuError::PageTableCorrupted));
                return Err(MmuError::PageTableCorrupted);
            }
            proof {
                let p2 = path.push(next);
                assert(link_ok(mem, p2, virt_addr, level as int));
                assert forall|k: int| 0 <= k < level + 1 implies #[trigger] link_ok(mem, p2, virt_addr, k) by {
                    if k < level {
                        assert(link_ok(mem, path, virt_addr, k));
                    }
                }
                assert forall|k: int| 0 <= k <= level + 1 implies mem.frame_ok(#[trigger] p2[k]) by {
                    if k <= level {
                        assert(mem.frame_ok(path[k]));
                    }
                }
                path = p2;
            }
            table = next;
            level = level + 1;
        }
        let index = level_index_exec(virt_addr, 3);
        let pte = PageTableEntry(mem.read_entry(table, index));
        if !pte.is_present() {
            return Err(MmuError::NotMapped);
        }
        mem.write_entry(table, index, 0);
        proof {
            lemma_cleared_not_mapped(&old_mem, mem, path, virt_addr, 0);
            lemma_word_index_in_range(&old_mem, table, index as int);
            let w = word_index(old_mem.base, table, index as int);
            assert(0 <= w < old(mem).words@.len() && mem.words@ == old(mem).words@.update(w, 0));
        }
        Ok(())
    }
}

impl X86MmuManager {
    /// Number of 4 KiB pages covering `size` bytes.
    pub open spec fn pages_for(size: usize) -> int {
        (size + PAGE_SIZE_4K - 1) / (PAGE_SIZE_4K as int)
    }

    /// Maps `size` bytes (rounded up to whole pages) starting at `virt_start`
    /// to consecutive frames starting at `phys_start`, page by page, and stops
    /// at the first error.
    pub fn map_range<A: FrameAllocator>(
        &self,
        mem: &mut PhysMemory,
        page_table_root_phys: u64,
        virt_start: u64,
        phys_start: u64,
        size: usize,
        flags: PageFlags,
        allocator: &mut A,
    ) -> (r: Result<(), MmuError>)
        requires
            old(mem).wf(),
            size <= usize::MAX - PAGE_SIZE_4K,
            virt_start + Self::pages_for(size) * PAGE_SIZE_4K <= u64::MAX,
            phys_start + Self::pages_for(size) * PAGE_SIZE_4K <= u64::MAX,
        ensures
            final(mem).wf(),
            final(mem).base == old(mem).base,
            Self::pages_for(size) == 0 ==> r is Ok && final(mem).words@ == old(mem).words@,
            Self::pages_for(size) > 0 && (virt_start % PAGE_SIZE_4K != 0 || phys_start % PAGE_SIZE_4K != 0)
                ==> r == Err::<(), MmuError>(MmuError::InvalidArgument) && final(mem).words@ == old(mem).words@,
            r is Ok && Self::pages_for(size) > 0 ==> {
                let last = (Self::pages_for(size) - 1) * PAGE_SIZE_4K;
                translate_at(final(mem), page_table_root_phys, (virt_start + last) as u64, 0)
                    == Ok::<u64, MmuError>((((((phys_start + last) as u64) | flags.0 | FLAG_PRESENT)
                        & PHYSICAL_ADDRESS_MASK_4K)) as u64)
            },
            phys_start % PAGE_SIZE_4K == 0
                && range_walkable(old(mem), page_table_root_phys, virt_start, Self::pages_for(size), false) ==> r is Ok,
    {
        let size_pages: usize = (size + (PAGE_SIZE_4K as usize) - 1) / (PAGE_SIZE_4K as usize);
        let mut current_virt = virt_start;
        let mut current_phys = phys_start;
        let mut i: usize = 0;
        let ghost om = *old(mem);
        let ghost ready = phys_start % PAGE_SIZE_4K == 0
            && range_walkable(&om, page_table_root_phys, virt_start, size_pages as int, false);
        while i < size_pages
            invariant
                om == *old(mem),
                ready == (phys_start % PAGE_SIZE_4K == 0
                    && range_walkable(&om, page_table_root_phys, virt_start, size_pages as int, false)),
                ready ==> pages_kept(mem, &om, page_table_root_phys, virt_start, i as int, size_pages as int),
                mem.wf(),
                mem.base == old(mem).base,
                size_pages == Self::pages_for(size),
                i <= size_pages,
                current_virt == virt_start + i * PAGE_SIZE_4K,
                current_phys == phys_start + i * PAGE_SIZE_4K,
                virt_start + size_pages * PAGE_SIZE_4K <= u64::MAX,
                phys_start + size_pages * PAGE_SIZE_4K <= u64::MAX,
                i == 0 ==> mem.words@ == old(mem).words@,
                i > 0 ==> virt_start % PAGE_SIZE_4K == 0 && phys_start % PAGE_SIZE_4K == 0,
                i > 0 ==> translate_at(mem, page_table_root_phys, (current_virt - PAGE_SIZE_4K) as u64, 0)
                    == Ok::<u64, MmuError>((((((current_phys - PAGE_SIZE_4K) as u64) | flags.0 | FLAG_PRESENT)
                        & PHYSICAL_ADDRESS_MASK_4K)) as u64),
            decreases size_pages - i,
        {
            let ghost before = mem.words@;
            let ghost before_mem = *mem;
            proof {
                if ready {
                    assert(current_virt == range_page(virt_start, i as int));
                    lemma_range_page_reached(&om, &before_mem, page_table_root_phys, virt_start, size_pages as int, i as int, false);
                    assert(current_phys % PAGE_SIZE_4K == 0) by (nonlinear_arith)
                        requires phys_start % PAGE_SIZE_4K == 0, current_phys == phys_start + i * PAGE_SIZE_4K, 0 <= i;
                }
            }
            let res = self.map_page(mem, page_table_root_phys, current_virt, current_phys, flags, allocator);
            proof {
                if ready {
                    assert forall|k: int| i < k < size_pages implies #[trigger] leaf_clear_of(&om, page_table_root_phys, range_page(virt_start, i as int), range_page(virt_start, k)) by {}
                    lemma_range_step(&om, &before_mem, mem, page_table_root_phys, virt_start, size_pages as int, i as int,
                        current_phys | flags.0 | FLAG_PRESENT);
                }
            }
            match res {
                Ok(()) => {},
                Err(e) => {
                    proof {
                        if i == 0 && (virt_start % PAGE_SIZE_4K != 0 || phys_start % PAGE_SIZE_4K != 0) {
                            assert(e == MmuError::InvalidArgument);
                        }
                    }
                    return Err(e);
                },
            }
            proof {
                assert((current_virt & 0xFFFu64) == 0) by (bit_vector)
                    requires current_virt % 4096 == 0;
                assert(current_virt % PAGE_SIZE_4K == 0);
            }
            i = i + 1;
            current_virt = current_virt + PAGE_SIZE_4K;
            current_phys = current_phys + PAGE_SIZE_4K;
        }
        Ok(())
    }

    /// Removes the mappings of the pages covering `size` bytes from
    /// `virt_start`, page by page, and stops at the first error.
    pub fn unmap_range<A: FrameAllocator>(
        &self,
        mem: &mut PhysMemory,
        page_table_root_phys: u64,
        virt_start: u64,
        size: usize,
        allocator: &mut A,
    ) -> (r: Result<(), MmuError>)
        requires
            old(mem).wf(),
            size <= usize::MAX - PAGE_SIZE_4K,
            virt_start + Self::pages_for(size) * PAGE_SIZE_4K <= u64::MAX,
        ensures
            final(mem).wf(),
            final(mem).base == old(mem).base,
            Self::pages_for(size) == 0 ==> r is Ok && final(mem).words@ == old(mem).words@,
            Self::pages_for(size) > 0 && virt_start % PAGE_SIZE_4K != 0
                ==> r == Err::<(), MmuError>(MmuError::InvalidArgument) && final(mem).words@ == old(mem).words@,
            r is Ok ==> forall|k: int| 0 <= k < Self::pages_for(size) ==>
                translate_at(final(mem), page_table_root_phys, #[trigger] ((virt_start + k * PAGE_SIZE_4K) as u64), 0)
                    == Err::<u64, MmuError>(MmuError::NotMapped),
            range_walkable(old(mem), page_table_root_phys, virt_start, Self::pages_for(size), true) ==> r is Ok,
    {
        let size_pages: usize = (size + (PAGE_SIZE_4K as usize) - 1) / (PAGE_SIZE_4K as usize);
        let mut current_virt = virt_start;
        let mut i: usize = 0;
        let ghost om = *old(mem);
        let ghost ready = range_walkable(&om, page_table_root_phys, virt_start, size_pages as int, true);
        while i < size_pages
            invariant
                om == *old(mem),
                ready == range_walkable(&om, page_table_root_phys, virt_start, size_pages as int, true),
                ready ==> pages_kept(mem, &om, page_table_root_phys, virt_start, i as int, size_pages as int),
                mem.wf(),
                mem.base == old(mem).base,
                size_pages == Self::pages_for(size),
                i <= size_pages,
                current_virt == virt_start + i * PAGE_SIZE_4K,
                virt_start + size_pages * PAGE_SIZE_4K <= u64::MAX,
                i == 0 ==> mem.words@ == old(mem).words@,
                i > 0 ==> virt_start % PAGE_SIZE_4K == 0,
                forall|k: int| 0 <= k < i ==>
                    translate_at(mem, page_table_root_phys, #[trigger] ((virt_start + k * PAGE_SIZE_4K) as u64), 0)
                        == Err::<u64, MmuError>(MmuError::NotMapped),
            decreases size_pages - i,
        {
            let ghost before = *mem;
            proof {
                if ready {
                    assert(current_virt == range_page(virt_start, i as int));
                    lemma_range_page_reached(&om, &before, page_table_root_phys, virt_start, size_pages as int, i as int, true);
                }
            }
            let res = self.unmap_page(mem, page_table_root_phys, current_virt, allocator);
            match res {
                Ok(()) => {},
                Err(e) => {
                    return Err(e);
                },
            }
            proof {
                if ready {
                    assert forall|k: int| i < k < size_pages implies #[trigger] leaf_clear_of(&om, page_table_root_phys, range_page(virt_start, i as int), range_page(virt_start, k)) by {}
                    lemma_range_step(&om, &before, mem, page_table_root_phys, virt_start, size_pages as int, i as int, 0);
                }
            }
            proof {
                let w = choose|w: int| 0 <= w < before.words@.len() && mem.words@ == before.words@.update(w, 0);
                assert forall|k: int| 0 <= k < i + 1 implies
                    translate_at(mem, page_table_root_phys, #[trigger] ((virt_start + k * PAGE_SIZE_4K) as u64), 0)
                        == Err::<u64, MmuError>(MmuError::NotMapped) by {
                    if k < i {
                        lemma_clear_keeps_not_mapped(&before, mem, w, page_table_root_phys,
                            (virt_start + k * PAGE_SIZE_4K) as u64, 0);
                    }
                }
            }
            i = i + 1;
            current_virt = current_virt + PAGE_SIZE_4K;
        }
        Ok(())
    }

    /// A new top-level table: a zeroed frame from `allocator` whose last
    /// entry (511) is set to `kernel_pml4e`, the entry that maps the kernel
    /// half of the address space.
    pub fn create_new_page_table<A: FrameAllocator>(
        &self,
        mem: &mut PhysMemory,
        allocator: &mut A,
        kernel_pml4e: PageTableEntry,
    ) -> (r: Result<u64, MmuError>)
        requires
            old(mem).wf(),
        ensures
            final(mem).wf(),
            final(mem).base == old(mem).base,
            r is Err ==> final(mem).words@ == old(mem).words@,
            match old(allocator).frame_at(0) {
                None => r == Err::<u64, MmuError>(MmuError::OutOfMemory),
                Some(f) => if old(mem).frame_ok(f) {
                    r == Ok::<u64, MmuError>(f)
                } else {
                    r == Err::<u64, MmuError>(MmuError::PageTableCorrupted)
                },
            },
            r matches Ok(f) ==> {
                &&& final(mem).frame_ok(f)
                &&& final(mem).entry(f, 511) == kernel_pml4e.0
                &&& forall|i: int| 0 <= i < 511 ==> #[trigger] final(mem).entry(f, i) == 0
            },
    {
        let frame = match allocator.allocate_frame() {
            None => {
                return Err(MmuError::OutOfMemory);
            },
            Some(f) => f,
        };
        if !mem.frame_valid(frame) {
            allocator.deallocate_frame(frame);
            return Err(MmuError::PageTableCorrupted);
        }
        mem.zero_frame(frame);
        let ghost zeroed = *mem;
        mem.write_entry(frame, 511, kernel_pml4e.raw());
        proof {
            assert forall|i: int| 0 <= i < 511 implies #[trigger] mem.entry(frame, i) == 0 by {
                lemma_entries_distinct(mem, frame, i, frame, 511);
                assert(zeroed.entry(frame, i) == 0);
            }
        }
        Ok(frame)
    }
}

/// Clearing one word of memory never turns an unmapped address into a
/// mapped one.
proof fn lemma_clear_keeps_not_mapped(old_mem: &PhysMemory, mem: &PhysMemory, w: int, table: u64, va: u64, level: nat)
    requires
        old_mem.wf(),
        mem.base == old_mem.base,
        0 <= w < old_mem.words@.len(),
        mem.words@ == old_mem.words@.update(w, 0),
        translate_at(old_mem, table, va, level) == Err::<u64, MmuError>(MmuError::NotMapped),
    ensures
        translate_at(mem, table, va, level) == Err::<u64, MmuError>(MmuError::NotMapped),
    decreases 4 - level,
{
    if level < 4 && old_mem.frame_ok(table) {
        lemma_level_index_bound(va, level as int);
        let wi = word_index(old_mem.base, table, level_index(va, level as int) as int);
        lemma_word_index_in_range(old_mem, table, level_index(va, level as int) as int);
        if wi == w {
            assert(mem.entry(table, level_index(va, level as int) as int) == 0);
            lemma_zero_entry_not_present();
        } else {
            assert(mem.entry(table, level_index(va, level as int) as int)
                == old_mem.entry(table, level_index(va, level as int) as int));
            let e = old_mem.entry(table, level_index(va, level as int) as int);
            if e & FLAG_PRESENT == FLAG_PRESENT && level < 3 && e & FLAG_HUGE_PAGE != FLAG_HUGE_PAGE {
                lemma_clear_keeps_not_mapped(old_mem, mem, w, entry_phys(e, PAGE_SIZE_4K), va, level + 1);
            }
        }
    }
}

/// Turns an MMU error into the kernel error reported to user space.
pub fn map_mmu_error(mmu_err: MmuError) -> (r: KError)
    ensures
        r == match mmu_err {
            MmuError::OutOfMemory => KError::OutOfMemory,
            MmuError::InvalidArgument => KError::InvalidArgument,
            MmuError::AlreadyMapped => KError::AlreadyExists,
            MmuError::NotMapped => KError::NotFound,
            _ => KError::InternalError,
        },
{
    match mmu_err {
        MmuError::OutOfMemory => KError::OutOfMemory,
        MmuError::InvalidArgument => KError::InvalidArgument,
        MmuError::AlreadyMapped => KError::AlreadyExists,
        MmuError::NotMapped => KError::NotFound,
        _ => KError::InternalError,
    }
}

/// Allocating user memory through the x86_64 manager is not supported yet:
/// every request is refused.
pub fn memory_allocate(size: usize) -> (r: Result<u64, KError>)
    ensures
        r == Err::<u64, KError>(KError::NotSupported),
{
    Err(KError::NotSupported)
}

/// Removes the user mapping of `size` bytes at `ptr` from the address
/// space rooted at `page_table_root_phys`, reporting MMU errors as kernel
/// errors.
pub fn shared_mem_unmap<A: FrameAllocator>(
    mmu: &X86MmuManager,
    mem: &mut PhysMemory,
    page_table_root_phys: u64,
    ptr: u64,
    size: usize,
    allocator: &mut A,
) -> (r: Result<(), KError>)
    requires
        old(mem).wf(),
        size <= usize::MAX - PAGE_SIZE_4K,
        ptr + X86MmuManager::pages_for(size) * PAGE_SIZE_4K <= u64::MAX,
    ensures
        final(mem).wf(),
        final(mem).base == old(mem).base,
        X86MmuManager::pages_for(size) > 0 && ptr % PAGE_SIZE_4K != 0
            ==> r == Err::<(), KError>(KError::InvalidArgument),
        r is Ok ==> forall|k: int| 0 <= k < X86MmuManager::pages_for(size) ==>
            translate_at(final(mem), page_table_root_phys, #[trigger] ((ptr + k * PAGE_SIZE_4K) as u64), 0)
                == Err::<u64, MmuError>(MmuError::NotMapped),
        range_walkable(old(mem), page_table_root_phys, ptr, X86MmuManager::pages_for(size), true) ==> r is Ok,
        X86MmuManager::pages_for(size) == 0 ==> r is Ok && final(mem).words@ == old(mem).words@,
{
    match mmu.unmap_range(mem, page_table_root_phys, ptr, size, allocator) {
        Ok(()) => Ok(()),
        Err(e) => Err(map_mmu_error(e)),
    }
}

/// The entry written for a new table points to it, present and not huge.
proof fn lemma_table_entry_links(frame: u64)
    requires
        frame % PAGE_SIZE_4K == 0,
        frame < PHYS_LIMIT,
    ensures
        (frame | ((1u64 | 2u64) | 4u64)) & FLAG_PRESENT == FLAG_PRESENT,
        (frame | ((1u64 | 2u64) | 4u64)) & FLAG_HUGE_PAGE != FLAG_HUGE_PAGE,
        entry_phys(frame | ((1u64 | 2u64) | 4u64), PAGE_SIZE_4K) == frame,
{
    assert((frame | ((1u64 | 2u64) | 4u64)) & 1u64 == 1u64) by (bit_vector);
    assert((frame | ((1u64 | 2u64) | 4u64)) & 0x80u64 != 0x80u64) by (bit_vector)
        requires frame % 4096 == 0;
    assert((frame | ((1u64 | 2u64) | 4u64)) & 0x000F_FFFF_FFFF_F000u64 == frame) by (bit_vector)
        requires frame % 4096 == 0, frame < 0x10_0000_0000_0000u64;
}

/// An entry's address plus an offset inside a page of that size fits.
proof fn lemma_phys_plus_offset(e: u64, size: u64, va: u64)
    requires
        size == PAGE_SIZE_4K || size == PAGE_SIZE_2M || size == PAGE_SIZE_1G,
    ensures
        entry_phys(e, size) + (va & ((size - 1) as u64)) <= u64::MAX,
        (va & ((size - 1) as u64)) < size,
{
    assert(e & 0x000F_FFFF_FFFF_F000u64 <= 0x000F_FFFF_FFFF_F000u64) by (bit_vector);
    assert(e & 0x000F_FFFF_FFE0_0000u64 <= 0x000F_FFFF_FFE0_0000u64) by (bit_vector);
    assert(e & 0x000F_FFFF_C000_0000u64 <= 0x000F_FFFF_C000_0000u64) by (bit_vector);
    assert(va & 0xFFFu64 < 0x1000) by (bit_vector);
    assert(va & 0x1F_FFFFu64 < 0x20_0000) by (bit_vector);
    assert(va & 0x3FFF_FFFFu64 < 0x4000_0000) by (bit_vector);
}

} // verus!
