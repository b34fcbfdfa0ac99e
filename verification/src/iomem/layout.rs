//! The shape of a block of memory: how large it is and how it is aligned.

use vstd::prelude::*;

verus! {

/// Whether `n` is a power of two: exactly one bit of it is set.
pub open spec fn is_power_of_two(n: usize) -> bool {
    n != 0 && n & ((n - 1) as usize) == 0
}

/// The largest size a block of alignment `align` may have: rounded up to
/// the alignment it must still fit in `isize`.
pub open spec fn max_size_for_align(align: usize) -> int {
    isize::MAX as int - (align as int - 1)
}

/// Whether `size` and `align` describe a block of memory that can exist.
pub open spec fn valid_layout(size: usize, align: usize) -> bool {
    is_power_of_two(align) && size as int <= max_size_for_align(align)
}

/// Why a size and an alignment do not make a layout.
#[derive(Debug, Clone, Copy, PartialEq, Eq, Structural)]
pub enum LayoutError {
    /// The alignment is zero or not a power of two.
    BadAlignment,
    /// The size, rounded up to the alignment, does not fit in `isize`.
    TooLarge,
}

/// The shape of a block of memory: its size in bytes and its alignment.
#[derive(Debug, Clone, Copy, PartialEq, Eq, Structural)]
pub struct Layout {
    size: usize,
    align: usize,
}

impl Layout {
    /// The size of the block in bytes.
    pub closed spec fn spec_size(&self) -> usize {
        self.size
    }

    /// The alignment of the block in bytes.
    pub closed spec fn spec_align(&self) -> usize {
        self.align
    }

    /// Whether the layout describes a block that can exist. Every layout
    /// that executable code holds does.
    pub open spec fn wf(&self) -> bool {
        valid_layout(self.spec_size(), self.spec_align())
    }

    #[verifier::type_invariant]
    pub(crate) open spec fn holds(&self) -> bool {
        self.wf()
    }

    /// Builds a layout, or says why `size` and `align` do not make one.
    pub fn from_size_align(size: usize, align: usize) -> (r: Result<Layout, LayoutError>)
        ensures
            valid_layout(size, align) <==> r is Ok,
            r matches Ok(l) ==> l.wf() && l.spec_size() == size && l.spec_align() == align,
            r matches Err(e) ==> (e == LayoutError::BadAlignment <==> !is_power_of_two(align)),
    {
        if align == 0 || align & (align - 1) != 0 {
            return Err(LayoutError::BadAlignment);
        }
        let limit: usize = isize::MAX as usize;
        if align - 1 > limit || size > limit - (align - 1) {
            return Err(LayoutError::TooLarge);
        }
        Ok(Layout { size, align })
    }

    /// The size of the block in bytes.
    #[verifier::when_used_as_spec(spec_size)]
    pub fn size(&self) -> (n: usize)
        ensures
            n == self.spec_size(),
            self.wf(),
    {
        proof {
            use_type_invariant(self);
        }
        self.size
    }

    /// The alignment of the block in bytes.
    #[verifier::when_used_as_spec(spec_align)]
    pub fn align(&self) -> (n: usize)
        ensures
            n == self.spec_align(),
            self.wf(),
    {
        proof {
            use_type_invariant(self);
        }
        self.align
    }
}

} // verus!
