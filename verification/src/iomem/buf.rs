//! The I/O buffer: one region of memory of fixed capacity, with the bytes of
//! it that are in use.

use crate::iomem::arena::{zeros, IOMemAllocator};
use crate::iomem::layout::Layout;
use crate::iomem::{DmaObject, IOMemError};
use vstd::prelude::*;

verus! {

/// `Vec::as_ptr` as a number: the address at which the storage of `storage`
/// begins. The address is the allocator's choice, so nothing is claimed of
/// it.
#[verifier::external_body]
fn storage_address(storage: &Vec<u8>) -> u64 {
    storage.as_ptr() as u64
}

/// The smaller of two lengths.
pub open spec fn min_len(a: int, b: int) -> int {
    if a <= b {
        a
    } else {
        b
    }
}

/// What a buffer holds after `src` was copied in at `offset`, with room for
/// `capacity` bytes in all. As much of `src` as fits lies from `offset` on.
/// The buffer is as long as it was, or as long as it takes to hold the
/// copied bytes; every other byte is what it was, and zero where the buffer
/// held nothing before.
pub open spec fn copied_in(content: Seq<u8>, capacity: int, offset: int, src: Seq<u8>) -> Seq<u8>
    recommends
        0 <= offset <= capacity,
{
    let cnt = min_len(capacity - offset, src.len() as int);
    let len = if content.len() >= offset + cnt {
        content.len() as int
    } else {
        offset + cnt
    };
    Seq::new(
        len as nat,
        |i: int|
            if offset <= i < offset + cnt {
                src[i - offset]
            } else if i < content.len() {
                content[i]
            } else {
                0u8
            },
    )
}

/// How many bytes a read at `offset` takes out of `len` bytes into a
/// destination of `room` bytes.
pub open spec fn copy_out_count(len: int, offset: int, room: int) -> int {
    if offset >= len {
        0
    } else {
        min_len(len - offset, room)
    }
}

/// What a destination holds after a read at `offset` from `content`: the
/// bytes read, then its own bytes from there on.
pub open spec fn copied_out(content: Seq<u8>, offset: int, dst: Seq<u8>) -> Seq<u8> {
    let cnt = copy_out_count(content.len() as int, offset, dst.len() as int);
    if cnt == 0 {
        dst
    } else {
        content.subrange(offset, offset + cnt) + dst.skip(cnt)
    }
}

/// What a buffer holds once it is expanded: its bytes, then zeros up to the
/// capacity.
pub open spec fn expanded(content: Seq<u8>, capacity: int) -> Seq<u8> {
    content + zeros((capacity - content.len()) as nat)
}

/// An expanded buffer is at its full capacity: the bytes it held are where
/// they were and all bytes behind them are zero. A buffer that held nothing
/// but zeros, or nothing at all, is all zeros afterwards.
pub proof fn lemma_expanded_is_full(content: Seq<u8>, capacity: int)
    requires
        content.len() <= capacity,
    ensures
        expanded(content, capacity).len() == capacity,
        forall|i: int| 0 <= i < content.len() ==> expanded(content, capacity)[i] == content[i],
        forall|i: int| content.len() <= i < capacity ==> expanded(content, capacity)[i] == 0,
        content == zeros(content.len()) ==> expanded(content, capacity) == zeros(capacity as nat),
{
    if content == zeros(content.len()) {
        assert(expanded(content, capacity) =~= zeros(capacity as nat));
    }
}

/// An I/O buffer: the data handed to or taken from a device. It owns one
/// region of memory of fixed capacity, of which the first `len` bytes are
/// in use.
#[derive(Debug)]
pub struct IOBuf {
    buf: Vec<u8>,
    capacity: usize,
}

impl View for IOBuf {
    type V = Seq<u8>;

    /// The bytes in use, in order.
    closed spec fn view(&self) -> Seq<u8> {
        self.buf@
    }
}

impl IOBuf {
    /// The number of bytes the buffer has room for; fixed when it is made.
    pub closed spec fn spec_capacity(&self) -> usize {
        self.capacity
    }

    /// The number of bytes in use.
    pub open spec fn spec_len(&self) -> usize {
        self@.len() as usize
    }

    /// Whether the bytes in use fit in the capacity. Every operation of the
    /// buffer keeps it so.
    pub open spec fn wf(&self) -> bool {
        self@.len() <= self.spec_capacity()
    }

    /// A new buffer for `layout`, zeroed and at full length. Its capacity
    /// is the size of the region that an arena of this layout grants for
    /// it, which is the size of the layout.
    pub fn new(layout: Layout) -> (r: Result<IOBuf, IOMemError>)
        ensures
            r matches Ok(b) ==> b.wf() && b.spec_capacity() == layout.spec_size() && b@ == zeros(
                layout.spec_size() as nat,
            ),
            r matches Err(e) ==> e == IOMemError::OutOfMemory,
    {
        let arena: IOMemAllocator = match IOMemAllocator::new(layout) {
            Ok(a) => a,
            Err(e) => {
                return Err(e);
            },
        };
        match arena.allocate(layout) {
            Ok(region) => {
                let capacity: usize = region.len();
                let mut iobuf = IOBuf { buf: region, capacity };
                iobuf.expand();
                Ok(iobuf)
            },
            Err(e) => Err(e),
        }
    }

    /// The number of bytes the buffer has room for.
    #[verifier::when_used_as_spec(spec_capacity)]
    pub fn capacity(&self) -> (n: usize)
        ensures
            n == self.spec_capacity(),
    {
        self.capacity
    }

    /// Fills the buffer up to its capacity with zero bytes. The bytes that
    /// were in use keep their values.
    pub fn expand(&mut self)
        requires
            old(self).wf(),
        ensures
            final(self).wf(),
            final(self).spec_capacity() == old(self).spec_capacity(),
            final(self)@ == expanded(old(self)@, old(self).spec_capacity() as int),
            final(self)@.len() == old(self).spec_capacity(),
    {
        let ghost before = self.buf@;
        let capacity: usize = self.capacity;
        self.buf.resize(capacity, 0u8);
        assert(self.buf@ =~= before + zeros((capacity - before.len()) as nat));
    }

    /// Cuts the bytes in use down to the first `new_len`; a buffer that is
    /// not longer than that stays as it is.
    pub fn truncate(&mut self, new_len: usize)
        requires
            old(self).wf(),
        ensures
            final(self).wf(),
            final(self).spec_capacity() == old(self).spec_capacity(),
            final(self)@ == if new_len <= old(self)@.len() {
                old(self)@.take(new_len as int)
            } else {
                old(self)@
            },
    {
        self.buf.truncate(new_len);
    }

    /// Removes all buffer contents; the capacity stays.
    pub fn clear(&mut self)
        ensures
            final(self).wf(),
            final(self).spec_capacity() == old(self).spec_capacity(),
            final(self)@ == Seq::<u8>::empty(),
    {
        self.buf.clear();
    }

    /// Copies bytes of `src` into the buffer, starting at `offset`, as many
    /// as fit between `offset` and the capacity, and returns how many that
    /// were. The bytes in use grow as far as it takes to hold the copied
    /// bytes, with zeros between the old end and `offset` where there is a
    /// gap; a buffer that is longer than that keeps its length and the bytes
    /// behind the copied ones. A source that is too long is no error; it is
    /// copied in part.
    pub fn copy_in_at(&mut self, offset: usize, src: &[u8]) -> (r: Result<usize, IOMemError>)
        requires
            old(self).wf(),
            offset <= old(self).spec_capacity(),
        ensures
            final(self).wf(),
            final(self).spec_capacity() == old(self).spec_capacity(),
            r matches Ok(n) && n == min_len(old(self).spec_capacity() - offset, src@.len() as int),
            final(self)@ == copied_in(
                old(self)@,
                old(self).spec_capacity() as int,
                offset as int,
                src@,
            ),
            final(self)@.len() >= offset + r->Ok_0,
            final(self)@.len() >= old(self)@.len(),
            final(self)@.len() == old(self)@.len() || final(self)@.len() == offset + r->Ok_0,
            offset + r->Ok_0 <= old(self).spec_capacity(),
    {
        let ghost before = self.buf@;
        let remaining: usize = self.capacity - offset;
        let cnt: usize = if remaining <= src.len() {
            remaining
        } else {
            src.len()
        };
        if offset + cnt > self.buf.len() {
            self.buf.resize(offset + cnt, 0u8);
        }
        let ghost grown = self.buf@;
        assert(grown.len() == if before.len() >= offset + cnt {
            before.len() as int
        } else {
            offset + cnt
        });
        assert(forall|j: int|
            0 <= j < grown.len() ==> grown[j] == if j < before.len() {
                before[j]
            } else {
                0u8
            }) by {
            if offset + cnt > before.len() {
                assert(grown.subrange(0, before.len() as int) == before);
                assert forall|j: int| 0 <= j < before.len() implies grown[j] == before[j] by {
                    assert(grown.subrange(0, before.len() as int)[j] == grown[j]);
                }
            }
        }
        let mut i: usize = 0;
        while i < cnt
            invariant
                i <= cnt,
                cnt <= src@.len(),
                cnt == min_len(self.capacity - offset, src@.len() as int),
                offset + cnt <= grown.len(),
                grown.len() <= usize::MAX,
                self.buf@.len() == grown.len(),
                self.capacity == old(self).capacity,
                grown.len() == if before.len() >= offset + cnt {
                    before.len() as int
                } else {
                    offset + cnt
                },
                forall|j: int|
                    0 <= j < grown.len() ==> grown[j] == if j < before.len() {
                        before[j]
                    } else {
                        0u8
                    },
                forall|j: int|
                    0 <= j < grown.len() && !(offset <= j < offset + i) ==> self.buf@[j]
                        == grown[j],
                forall|j: int| offset <= j < offset + i ==> self.buf@[j] == src@[j - offset],
            decreases cnt - i,
        {
            let byte: u8 = src[i];
            self.buf[offset + i] = byte;
            i += 1;
        }
        let ghost want = copied_in(before, self.capacity as int, offset as int, src@);
        assert(self.buf@.len() == want.len());
        assert forall|j: int| 0 <= j < want.len() implies self.buf@[j] == want[j] by {
            if !(offset <= j < offset + cnt) {
                assert(self.buf@[j] == grown[j]);
            }
        }
        assert(self.buf@ =~= want);
        Ok(cnt)
    }

    /// Copies bytes of `src` to the start of the buffer: `copy_in_at` with
    /// offset zero.
    pub fn copy_in(&mut self, src: &[u8]) -> (r: Result<usize, IOMemError>)
        requires
            old(self).wf(),
        ensures
            final(self).wf(),
            final(self).spec_capacity() == old(self).spec_capacity(),
            r matches Ok(n) && n == min_len(old(self).spec_capacity() as int, src@.len() as int),
            final(self)@ == copied_in(old(self)@, old(self).spec_capacity() as int, 0, src@),
            final(self)@.take(r->Ok_0 as int) == src@.take(r->Ok_0 as int),
    {
        let r = self.copy_in_at(0, src);
        assert(self@.take(r->Ok_0 as int) =~= src@.take(r->Ok_0 as int));
        r
    }

    /// Copies bytes out of the buffer into `dst`, starting at `offset`, and
    /// returns how many: none if `offset` is at or past the end of the bytes
    /// in use, else as many as are left there and fit in `dst`. The rest of
    /// `dst` keeps its values.
    pub fn copy_out_at(&self, offset: usize, dst: &mut [u8]) -> (r: Result<usize, IOMemError>)
        ensures
            r matches Ok(n) && n == copy_out_count(
                self@.len() as int,
                offset as int,
                old(dst)@.len() as int,
            ),
            final(dst)@.len() == old(dst)@.len(),
            final(dst)@ == copied_out(self@, offset as int, old(dst)@),
    {
        let ghost before = dst@;
        if offset >= self.buf.len() {
            return Ok(0);
        }
        let left: usize = self.buf.len() - offset;
        let cnt: usize = if left <= dst.len() {
            left
        } else {
            dst.len()
        };
        let mut i: usize = 0;
        while i < cnt
            invariant
                i <= cnt,
                offset + cnt <= self.buf@.len(),
                offset + cnt <= usize::MAX,
                cnt <= before.len(),
                dst@.len() == before.len(),
                dst@.take(i as int) == self.buf@.subrange(offset as int, offset + i),
                dst@.skip(i as int) == before.skip(i as int),
            decreases cnt - i,
        {
            let ghost prev = dst@;
            let byte: u8 = self.buf[offset + i];
            dst[i] = byte;
            assert(dst@.take(i + 1) =~= prev.take(i as int).push(byte));
            assert(self.buf@.subrange(offset as int, offset + i + 1) =~= self.buf@.subrange(
                offset as int,
                offset + i,
            ).push(byte));
            assert(dst@.skip(i + 1) =~= prev.skip(i as int).skip(1));
            assert(before.skip(i + 1) =~= before.skip(i as int).skip(1));
            i += 1;
        }
        assert(dst@ =~= dst@.take(cnt as int) + dst@.skip(cnt as int));
        assert(cnt == 0 ==> dst@ =~= before);
        Ok(cnt)
    }

    /// Copies bytes out of the buffer into `dst`, from the start of the
    /// buffer: `copy_out_at` with offset zero.
    pub fn copy_out(&self, dst: &mut [u8]) -> (r: Result<usize, IOMemError>)
        ensures
            r matches Ok(n) && n == min_len(self@.len() as int, old(dst)@.len() as int),
            final(dst)@.len() == old(dst)@.len(),
            final(dst)@ == self@.take(r->Ok_0 as int) + old(dst)@.skip(r->Ok_0 as int),
    {
        let r = self.copy_out_at(0, dst);
        assert(dst@ =~= self@.take(r->Ok_0 as int) + old(dst)@.skip(r->Ok_0 as int));
        r
    }

    /// The bytes in use.
    pub fn as_slice(&self) -> (s: &[u8])
        ensures
            s@ == self@,
    {
        self.buf.as_slice()
    }

    /// The bytes in use, open to change in place. Their number stays.
    pub fn as_mut_slice(&mut self) -> (s: &mut [u8])
        ensures
            s@ == old(self)@,
            final(self)@ == final(s)@,
            final(self).spec_capacity() == old(self).spec_capacity(),
    {
        self.buf.as_mut_slice()
    }

    /// The number of bytes in use.
    #[verifier::when_used_as_spec(spec_len)]
    pub fn len(&self) -> (n: usize)
        ensures
            n == self.spec_len(),
            n == self@.len(),
    {
        self.buf.len()
    }
}

impl vstd::std_specs::core::IndexSpecImpl<usize> for IOBuf {
    /// An index must lie within the bytes in use.
    open spec fn index_req(&self, index: &usize) -> bool {
        *index < self@.len()
    }
}

impl core::ops::Index<usize> for IOBuf {
    type Output = u8;

    /// The byte at `index`, which must lie within the bytes in use.
    fn index(&self, index: usize) -> (byte: &u8)
        ensures
            *byte == self@[index as int],
    {
        &self.buf[index]
    }
}

impl DmaObject for IOBuf {
    /// The storage of a buffer lies where the allocator put it, which may
    /// be anywhere.
    open spec fn dwells_at(&self, vaddr: u64) -> bool {
        true
    }

    /// The address at which the buffer's storage begins.
    fn vaddr(&self) -> (v: u64) {
        storage_address(&self.buf)
    }
}

} // verus!
