//! Memory for device I/O: the arena that hands out zeroed blocks, the buffer
//! that owns one block, the pool that recycles buffers and the chain that
//! strings buffers together into one message.

use vstd::prelude::*;

pub mod arena;
pub mod buf;
pub mod chain;
pub mod layout;
pub mod pool;

pub use self::arena::{
    lemma_round_up_is_least_multiple, region_size, round_up_to_block, wider_align, zeroed_region,
    zeros, IOMemAllocator,
};
pub use self::buf::{
    copied_in, copied_out, copy_out_count, expanded, lemma_expanded_is_full, min_len, IOBuf,
};
pub use self::chain::{
    bytes_before, contents, fits, lemma_bytes_before_grows, lemma_empty_fragments,
    lemma_fits_is_unique, lemma_flatten_split, lemma_only_used_bytes, only_used, IOBufChain,
};
pub use self::layout::{
    is_power_of_two, max_size_for_align, valid_layout, Layout, LayoutError,
};
pub use self::pool::{after_gets, lemma_gets_return_puts, IOBufPool};

verus! {

/// What can go wrong when I/O memory is requested or addressed.
#[derive(Debug, Clone, Copy, PartialEq, Eq, Structural)]
pub enum IOMemError {
    /// The platform could not provide the memory that was asked for.
    OutOfMemory,
    /// The operation exists in the interface but has no implementation.
    NotYetImplemented,
    /// A byte index lies at or beyond the end of the data.
    OutOfRange,
}

impl IOMemError {
    /// A short description of the error for log lines and messages.
    pub fn message(&self) -> (s: &'static str)
        ensures
            s@ == match *self {
                IOMemError::OutOfMemory => "reached out of memory"@,
                IOMemError::NotYetImplemented => "feature not yet implemented"@,
                IOMemError::OutOfRange => "index out of range"@,
            },
    {
        match self {
            IOMemError::OutOfMemory => "reached out of memory",
            IOMemError::NotYetImplemented => "feature not yet implemented",
            IOMemError::OutOfRange => "index out of range",
        }
    }
}

/// Offset between the virtual address of a buffer and the address under
/// which the memory is seen physically.
pub const KERNEL_BASE: u64 = 0x4000_0000_0000;

/// The physical address that belongs to a virtual address of the region
/// mapped at `KERNEL_BASE`, and nothing for an address below that region.
pub open spec fn spec_phys_addr(vaddr: u64) -> Option<u64> {
    if vaddr >= KERNEL_BASE {
        Some((vaddr - KERNEL_BASE) as u64)
    } else {
        None
    }
}

/// Finds the physical address for a virtual one by taking off the fixed
/// offset of the mapping. This holds for memory of the region mapped at
/// `KERNEL_BASE` only; an address below it has no physical address here.
/// Memory that is mapped page by page needs a lookup in place of this.
#[verifier::when_used_as_spec(spec_phys_addr)]
pub fn phys_addr(vaddr: u64) -> (r: Option<u64>)
    ensures
        r == spec_phys_addr(vaddr),
{
    if vaddr >= KERNEL_BASE {
        Some(vaddr - KERNEL_BASE)
    } else {
        None
    }
}

/// An object that a device reads or writes by DMA, and so has to be known
/// by its addresses. Where an object lies is the business of whoever placed
/// it: an implementation says for itself at which addresses the object may
/// be found, and its `vaddr` keeps to that.
pub trait DmaObject {
    /// Whether the object may be found at the virtual address `vaddr`.
    spec fn dwells_at(&self, vaddr: u64) -> bool;

    /// The address under which software reaches the object.
    fn vaddr(&self) -> (v: u64)
        ensures
            self.dwells_at(v),
    ;

    /// The address of the object in main memory: the physical address that
    /// belongs to its virtual address, which is asked for once. An object
    /// below the region mapped at `KERNEL_BASE` has none.
    fn paddr(&self) -> (r: Option<u64>)
        ensures
            exists|v: u64| #[trigger] self.dwells_at(v) && r == spec_phys_addr(v),
            r matches Some(p) ==> p + KERNEL_BASE <= u64::MAX,
    {
        let v: u64 = self.vaddr();
        phys_addr(v)
    }

    /// The address under which a device reaches the object: without an
    /// IOMMU, the physical one.
    fn ioaddr(&self) -> (r: Option<u64>)
        ensures
            exists|v: u64| #[trigger] self.dwells_at(v) && r == spec_phys_addr(v),
            r matches Some(p) ==> p + KERNEL_BASE <= u64::MAX,
    {
        self.paddr()
    }
}

} // verus!
