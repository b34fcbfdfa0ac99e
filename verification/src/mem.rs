//! Pinned memory for devices on Linux: which sizes can be had, which flags
//! ask for them, and how the kernel's page map tells where a page lies.
//!
//! The mapping and the pinning themselves are calls into the kernel and
//! happen outside this crate; here are the decisions around them.

use vstd::prelude::*;

verus! {

/// Why device memory could not be had.
#[derive(Debug, Clone, Copy, PartialEq, Eq, Structural)]
pub enum AllocError {
    /// The memory could not be mapped.
    Mapping,
    /// The memory could not be pinned.
    Pin,
}

/// The size of an ordinary page.
pub const FOUR_KIB: usize = 4 * 1024;

/// The size of a large page.
pub const TWO_MIB: usize = 2 * 1024 * 1024;

/// The size of a huge page.
pub const ONE_GIB: usize = 1024 * 1024 * 1024;

/// The size of the pages that the page map counts in.
pub const PAGESIZE: u64 = 4096;

/// The size of one entry of the page map, in bytes.
pub const PAGEMAP_ENTRY_SIZE: u64 = 8;

/// Where the flags of a mapping hold the size of its huge pages.
pub const MAP_HUGE_SHIFT: usize = 26;

/// The flag that asks for pages of 2 MiB: the logarithm of their size, in
/// the place for the size.
pub const MAP_HUGE_2MB: i32 = 0x5400_0000;

/// The flag that asks for pages of 1 GiB.
pub const MAP_HUGE_1GB: i32 = 0x7800_0000;

/// Whether a region of `size` bytes can be had: it must be one page of a
/// size that the platform has.
pub open spec fn spec_is_page_size(size: usize) -> bool {
    size == FOUR_KIB || size == TWO_MIB || size == ONE_GIB
}

/// Tells whether a region of `size` bytes can be had.
#[verifier::when_used_as_spec(spec_is_page_size)]
pub fn is_page_size(size: usize) -> (b: bool)
    ensures
        b == spec_is_page_size(size),
{
    size == FOUR_KIB || size == TWO_MIB || size == ONE_GIB
}

/// The flag that asks for huge pages of `size` bytes, for the sizes that
/// need one.
pub open spec fn spec_huge_page_flag(size: usize) -> Option<i32> {
    if size == TWO_MIB {
        Some(MAP_HUGE_2MB)
    } else if size == ONE_GIB {
        Some(MAP_HUGE_1GB)
    } else {
        None
    }
}

/// Picks the flag that asks for huge pages of `size` bytes. A region of
/// any other size is mapped with ordinary pages and needs no such flag.
#[verifier::when_used_as_spec(spec_huge_page_flag)]
pub fn huge_page_flag(size: usize) -> (r: Option<i32>)
    ensures
        r == spec_huge_page_flag(size),
{
    if size == TWO_MIB {
        Some(MAP_HUGE_2MB)
    } else if size == ONE_GIB {
        Some(MAP_HUGE_1GB)
    } else {
        None
    }
}

/// The huge page flags carry the logarithm of the page size in the place
/// that the kernel reads it from.
pub proof fn lemma_huge_page_flags()
    ensures
        MAP_HUGE_2MB == 21 * 0x400_0000,
        MAP_HUGE_1GB == 30 * 0x400_0000,
        TWO_MIB == 0x20_0000,
        ONE_GIB == 0x4000_0000,
{
}

/// What the attempt to pin a mapping came to, from what the kernel
/// answered: zero for success, minus one for failure. The kernel gives no
/// other answer; a caller that sees one must not go on.
pub fn pin_result(lock_ret: i32) -> (r: Result<(), AllocError>)
    requires
        lock_ret == 0 || lock_ret == -1,
    ensures
        lock_ret == 0 ==> r is Ok,
        lock_ret == -1 ==> r == Err::<(), AllocError>(AllocError::Pin),
{
    if lock_ret == -1 {
        Err(AllocError::Pin)
    } else {
        Ok(())
    }
}

/// Where in the page map the entry of the page at `virtual_page` stands.
pub open spec fn spec_pagemap_offset(virtual_page: u64) -> u64 {
    ((virtual_page / PAGESIZE) * PAGEMAP_ENTRY_SIZE) as u64
}

/// Finds where in the page map the entry of a page stands. The address
/// must be that of the start of a page.
#[verifier::when_used_as_spec(spec_pagemap_offset)]
pub fn pagemap_offset(virtual_page: u64) -> (offset: u64)
    requires
        virtual_page % PAGESIZE == 0,
    ensures
        offset == spec_pagemap_offset(virtual_page),
        offset * 512 == virtual_page,
{
    (virtual_page / PAGESIZE) * PAGEMAP_ENTRY_SIZE
}

/// The number of the page frame that an entry of the page map names: its
/// lowest 55 bits.
pub open spec fn frame_number(entry: u64) -> u64 {
    entry & 0x7f_ffff_ffff_ffff
}

/// Whether an entry of the page map says that its page is in memory: its
/// highest bit.
pub open spec fn is_resident(entry: u64) -> bool {
    entry & 0x8000_0000_0000_0000 != 0
}

/// The physical address that an entry of the page map gives: the start of
/// the named frame, for a page that is in memory and a frame whose address
/// can be written in 64 bits.
pub open spec fn spec_frame_address(entry: u64) -> Option<u64> {
    if is_resident(entry) && frame_number(entry) * PAGESIZE <= u64::MAX {
        Some((frame_number(entry) * PAGESIZE) as u64)
    } else {
        None
    }
}

/// Reads the physical address of a page from its entry in the page map.
/// There is none for a page that is swapped out, nor for a frame number so
/// large that the address does not fit.
#[verifier::when_used_as_spec(spec_frame_address)]
pub fn frame_address(entry: u64) -> (r: Option<u64>)
    ensures
        r == spec_frame_address(entry),
        r matches Some(addr) ==> addr % PAGESIZE == 0,
{
    let present_bit: u64 = 1u64 << 63;
    assert(1u64 << 63 == 0x8000_0000_0000_0000u64) by (bit_vector);
    if entry & present_bit == 0 {
        return None;
    }
    assert(1u64 << 55 == 0x80_0000_0000_0000u64) by (bit_vector);
    let pfn_mask: u64 = (1u64 << 55) - 1;
    let pfn: u64 = entry & pfn_mask;
    if pfn > u64::MAX / PAGESIZE {
        return None;
    }
    Some(pfn * PAGESIZE)
}

} // verus!
