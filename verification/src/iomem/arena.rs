//! The arena that backs I/O buffers with zeroed memory in whole blocks.

use crate::iomem::layout::{max_size_for_align, Layout};
use crate::iomem::IOMemError;
use vstd::prelude::*;

verus! {

/// `n` zero bytes.
pub open spec fn zeros(n: nat) -> Seq<u8> {
    Seq::new(n, |i: int| 0u8)
}

/// The smallest multiple of `block` that is at least `request`, for a block
/// size above zero.
pub open spec fn round_up_to_block(request: int, block: int) -> int
    recommends
        request >= 0,
        block > 0,
{
    if request % block == 0 {
        request
    } else {
        request - request % block + block
    }
}

/// `round_up_to_block` is what its name says: a multiple of the block size,
/// not below the request, and the least such number.
pub proof fn lemma_round_up_is_least_multiple(request: int, block: int)
    requires
        request >= 0,
        block > 0,
    ensures
        round_up_to_block(request, block) % block == 0,
        round_up_to_block(request, block) >= request,
        round_up_to_block(request, block) < request + block,
        forall|m: int|
            m >= request && #[trigger] (m % block) == 0 ==> m >= round_up_to_block(request, block),
{
    let r = round_up_to_block(request, block);
    assert(r % block == 0 && r >= request && r < request + block) by (nonlinear_arith)
        requires
            request >= 0,
            block > 0,
            r == round_up_to_block(request, block),
    ;
    assert forall|m: int| m >= request && #[trigger] (m % block) == 0 implies m >= r by {
        if m < r {
            assert(false) by (nonlinear_arith)
                requires
                    block > 0,
                    m % block == 0,
                    r % block == 0,
                    m < r,
                    r < request + block,
                    m >= request,
                    request >= 0,
                    request % block != 0 || r == request,
                    r == request || r == request - request % block + block,
            ;
        }
    }
}

/// The size of the region an arena with blocks of `block` bytes grants for
/// a request of `request` bytes, where there is one: nothing for an empty
/// request, else the request rounded up to whole blocks. An arena whose
/// block size is zero can grant nothing but the empty region.
pub open spec fn region_size(request: usize, block: usize) -> Option<int> {
    if request == 0 {
        Some(0int)
    } else if block == 0 {
        None
    } else {
        Some(round_up_to_block(request as int, block as int))
    }
}

/// The larger of two alignments.
pub open spec fn wider_align(a: usize, b: usize) -> usize {
    if a >= b {
        a
    } else {
        b
    }
}

/// The arena that backs I/O buffers. It grants zeroed regions in whole
/// blocks of the layout it was made with and keeps no list of free regions:
/// recycling is the business of the pool. It works out the size and the
/// alignment that a region must have, and grants the bytes. The bytes come
/// from the general allocator, which is not told of the alignment: memory
/// that a device needs at a certain alignment has to be allocated by the
/// shape that `region_layout` reports.
#[derive(Debug, Clone, Copy)]
pub struct IOMemAllocator {
    /// Layout of one block.
    layout: Layout,
}

impl IOMemAllocator {
    /// The layout of one block of this arena.
    pub closed spec fn block(&self) -> Layout {
        self.layout
    }

    /// Whether the arena's block layout is a valid one. Every arena that
    /// executable code holds is well formed.
    pub open spec fn wf(&self) -> bool {
        self.block().wf()
    }

    #[verifier::type_invariant]
    spec fn holds(&self) -> bool {
        self.wf()
    }

    /// An arena that grants memory in blocks of `layout`.
    pub fn new(layout: Layout) -> (r: Result<IOMemAllocator, IOMemError>)
        ensures
            r matches Ok(a) && a.block() == layout && a.wf(),
    {
        proof {
            use_type_invariant(&layout);
        }
        Ok(IOMemAllocator { layout })
    }

    /// The shape of the region that a request is answered with, if the
    /// request can be answered at all.
    pub open spec fn spec_region_layout(&self, request: Layout) -> Option<(int, usize)> {
        let align = wider_align(self.block().spec_align(), request.spec_align());
        match region_size(request.spec_size(), self.block().spec_size()) {
            Some(size) => if size <= max_size_for_align(align) {
                Some((size, align))
            } else {
                None
            },
            None => None,
        }
    }

    /// The shape that a region for `request` must have: the requested size
    /// rounded up to whole blocks, and the wider of the arena's and the
    /// request's alignment. `None` where no such region can be described.
    /// `allocate` grants a region of this size.
    pub fn region_layout(&self, request: Layout) -> (r: Option<Layout>)
        ensures
            match self.spec_region_layout(request) {
                Some((size, align)) => r matches Some(l) && l.wf() && l.spec_size() == size
                    && l.spec_align() == align,
                None => r is None,
            },
    {
        let block: usize = self.layout.size();
        let want: usize = request.size();
        let align: usize = if self.layout.align() >= request.align() {
            self.layout.align()
        } else {
            request.align()
        };
        let limit: usize = isize::MAX as usize;
        if align - 1 > limit {
            return None;
        }
        let most: usize = limit - (align - 1);
        let size: usize = if want == 0 {
            0
        } else if block == 0 {
            return None;
        } else {
            let rem: usize = want % block;
            assert(rem <= want) by (nonlinear_arith)
                requires
                    rem == want % block,
                    block > 0,
            ;
            if rem == 0 {
                want
            } else if want - rem > most || block > most - (want - rem) {
                return None;
            } else {
                want - rem + block
            }
        };
        if size > most {
            return None;
        }
        match Layout::from_size_align(size, align) {
            Ok(l) => Some(l),
            Err(_) => None,
        }
    }

    /// Grants a zeroed region for `request`, of the size that
    /// `region_layout` gives. Whether the platform has the memory is
    /// decided outside; where it has not, or where no region of the needed
    /// shape can exist, the answer is `OutOfMemory`. Of where the region
    /// lies, and so of its alignment, nothing is promised.
    pub fn allocate(&self, request: Layout) -> (r: Result<Vec<u8>, IOMemError>)
        ensures
            r matches Ok(region) ==> (self.spec_region_layout(request) matches Some((size, align))
                && region@ == zeros(size as nat)),
            r matches Err(e) ==> e == IOMemError::OutOfMemory,
            self.spec_region_layout(request) is None ==> r is Err,
    {
        let shape: Layout = match self.region_layout(request) {
            Some(l) => l,
            None => {
                return Err(IOMemError::OutOfMemory);
            },
        };
        let mut region: Vec<u8> = Vec::new();
        let reserved = region.try_reserve(shape.size());
        zeroed_region(region, shape.size(), reserved.is_ok())
    }
}

/// Turns fresh storage into a region of `size` zero bytes if the platform
/// reserved the memory for it, and into `OutOfMemory` if it did not.
pub fn zeroed_region(storage: Vec<u8>, size: usize, reserved: bool) -> (r: Result<
    Vec<u8>,
    IOMemError,
>)
    requires
        storage@.len() == 0,
    ensures
        reserved ==> (r matches Ok(region) && region@ == zeros(size as nat)),
        !reserved ==> r == Err::<Vec<u8>, IOMemError>(IOMemError::OutOfMemory),
{
    if reserved {
        let mut region = storage;
        region.resize(size, 0u8);
        assert(region@ =~= zeros(size as nat));
        Ok(region)
    } else {
        Err(IOMemError::OutOfMemory)
    }
}

} // verus!
