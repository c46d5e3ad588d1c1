//! The loongarch64 platform interface the portable kernel calls: page
//! mapping through a page table and the system-call return convention.
use vstd::prelude::*;
use crate::karnal::{KError, error_code};
use crate::loongarch64::mmu::{PageTable, PhysAddr, PteFlags, VirtAddr, mapping_entry, page_aligned, root_index};

verus! {

/// Maps the page at `virt` to the frame at `phys` with `flags` in
/// `page_table`; both addresses must be page aligned.
pub fn map_page(page_table: &mut PageTable, virt: VirtAddr, phys: PhysAddr, flags: PteFlags) -> (r: Result<(), KError>)
    ensures
        r is Ok <==> page_aligned(virt.0) && page_aligned(phys.0),
        r is Err ==> r == Err::<(), KError>(KError::InvalidArgument)
            && final(page_table).entries@ == old(page_table).entries@,
        r is Ok ==> final(page_table).entries@ == old(page_table).entries@.update(
            root_index(virt.0), mapping_entry(phys.0, flags.spec_bits())),
{
    page_table.map_page(virt, phys, flags)
}

/// Removes the mapping of the page at `virt` from `page_table`; `virt` must
/// be page aligned.
pub fn unmap_page(page_table: &mut PageTable, virt: VirtAddr) -> (r: Result<(), KError>)
    ensures
        r is Ok <==> page_aligned(virt.0),
        r is Err ==> r == Err::<(), KError>(KError::InvalidArgument)
            && final(page_table).entries@ == old(page_table).entries@,
        r is Ok ==> final(page_table).entries@ == old(page_table).entries@.update(
            root_index(virt.0), old(page_table).entries@[root_index(virt.0)] & !1u64),
{
    page_table.unmap_page(virt)
}

/// The physical address `virt` translates to in `page_table`, if any.
pub fn translate_address(page_table: &PageTable, virt: VirtAddr) -> (r: Option<PhysAddr>)
    ensures
        r matches Some(p) ==> page_table.translation(virt.0) == Some(p.0),
        r is None ==> page_table.translation(virt.0) is None,
{
    page_table.translate(virt)
}

/// The value a system call hands back in the return register: the result on
/// success, the error's negative code on failure.
pub fn syscall_return_value(result: Result<u64, KError>) -> (r: u64)
    ensures
        result matches Ok(v) ==> r == v,
        result matches Err(e) ==> r == (error_code(e) as u64),
{
    match result {
        Ok(v) => v,
        Err(e) => e.code() as u64,
    }
}

} // verus!
