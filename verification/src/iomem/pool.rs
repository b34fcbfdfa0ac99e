//! The pool that keeps buffers of one size for use again.

use crate::iomem::arena::{zeros, IOMemAllocator};
use crate::iomem::buf::{lemma_expanded_is_full, IOBuf};
use crate::iomem::layout::{valid_layout, Layout};
use crate::iomem::IOMemError;
use vstd::prelude::*;

verus! {

/// The free list of a pool after `gets` buffers went out of it.
pub open spec fn after_gets(list: Seq<IOBuf>, gets: int) -> Seq<IOBuf>
    recommends
        0 <= gets <= list.len(),
{
    list.take(list.len() - gets)
}

/// The buffers that are handed back to a pool are the first to go out of
/// it again, the one handed back last first: after the buffers `puts` were
/// put, each of the next gets, up to as many as there were puts, takes a
/// buffer that was put, and once `m` of them went out the pool holds what
/// it held before the puts and the first puts that are left. So none of
/// these gets finds the pool empty, and none allocates.
pub proof fn lemma_gets_return_puts(list: Seq<IOBuf>, puts: Seq<IOBuf>, m: int)
    requires
        0 <= m <= puts.len(),
    ensures
        after_gets(list + puts, m) == list + puts.take(puts.len() - m),
        forall|k: int|
            0 <= k < m ==> after_gets(list + puts, k).len() > 0 && (#[trigger] after_gets(
                list + puts,
                k,
            )).last() == puts[puts.len() - 1 - k],
        forall|k: int|
            0 <= k < m ==> (#[trigger] after_gets(list + puts, k)).drop_last() == after_gets(
                list + puts,
                k + 1,
            ),
{
    assert(after_gets(list + puts, m) =~= list + puts.take(puts.len() - m));
    assert forall|k: int| 0 <= k < m implies (#[trigger] after_gets(list + puts, k)).drop_last()
        == after_gets(list + puts, k + 1) by {
        assert(after_gets(list + puts, k).drop_last() =~= after_gets(list + puts, k + 1));
    }
}

/// A pool of buffers of one size for one device. Buffers that are handed
/// back are kept and handed out again before any new one is allocated; the
/// buffer handed back last is the first to go out again, zeroed like a new
/// one. The pool has no upper limit.
#[derive(Debug)]
pub struct IOBufPool {
    /// The buffers that wait to be used again.
    pool: Vec<IOBuf>,
    /// The arena that new buffers come from.
    _allocator: IOMemAllocator,
    /// The layout of every buffer of the pool.
    layout: Layout,
}

impl IOBufPool {
    /// The buffers that wait to be used again, oldest first.
    pub closed spec fn free_list(&self) -> Seq<IOBuf> {
        self.pool@
    }

    /// The layout of every buffer of the pool.
    pub closed spec fn spec_layout(&self) -> Layout {
        self.layout
    }

    /// Whether every waiting buffer is well formed and has the capacity
    /// that the pool's layout gives. Every operation of the pool keeps it
    /// so.
    pub open spec fn wf(&self) -> bool {
        &&& self.spec_layout().wf()
        &&& forall|i: int|
            0 <= i < self.free_list().len() ==> (#[trigger] self.free_list()[i]).wf()
                && self.free_list()[i].spec_capacity() == self.spec_layout().spec_size()
    }

    /// An empty pool for buffers of `len` bytes, aligned to `align`, which
    /// must make a valid layout.
    pub fn new(len: usize, align: usize) -> (r: Result<IOBufPool, IOMemError>)
        requires
            valid_layout(len, align),
        ensures
            r matches Ok(p) && p.wf() && p.free_list().len() == 0 && p.spec_layout().spec_size()
                == len && p.spec_layout().spec_align() == align,
    {
        let layout: Layout = match Layout::from_size_align(len, align) {
            Ok(l) => l,
            Err(_) => {
                return Err(IOMemError::OutOfMemory);
            },
        };
        match IOMemAllocator::new(layout) {
            Ok(allocator) => Ok(IOBufPool { pool: Vec::new(), _allocator: allocator, layout }),
            Err(e) => Err(e),
        }
    }

    /// The layout of every buffer of the pool.
    pub fn layout(&self) -> (l: Layout)
        ensures
            l == self.spec_layout(),
    {
        self.layout
    }

    /// The number of buffers that wait to be used again.
    pub fn available(&self) -> (n: usize)
        ensures
            n == self.free_list().len(),
    {
        self.pool.len()
    }

    /// Hands out a buffer that is zeroed throughout and at full length.
    /// While buffers wait in the pool, the one handed back last goes out,
    /// cleared of what it held, and nothing is allocated. An empty pool
    /// allocates a new buffer, and only that can fail.
    pub fn get_buf(&mut self) -> (r: Result<IOBuf, IOMemError>)
        requires
            old(self).wf(),
        ensures
            final(self).wf(),
            final(self).spec_layout() == old(self).spec_layout(),
            r matches Ok(b) ==> b.wf() && b.spec_capacity() == old(self).spec_layout().spec_size()
                && b@ == zeros(old(self).spec_layout().spec_size() as nat),
            old(self).free_list().len() > 0 ==> r is Ok && final(self).free_list() == old(
                self,
            ).free_list().drop_last(),
            old(self).free_list().len() == 0 ==> final(self).free_list() == old(self).free_list(),
            r matches Err(e) ==> e == IOMemError::OutOfMemory,
    {
        if self.pool.len() > 0 {
            match self.pool.pop() {
                Some(buf) => {
                    let mut buf = buf;
                    buf.clear();
                    buf.expand();
                    proof {
                        lemma_expanded_is_full(Seq::<u8>::empty(), buf.spec_capacity() as int);
                        assert(zeros(0) =~= Seq::<u8>::empty());
                    }
                    Ok(buf)
                },
                None => Err(IOMemError::OutOfMemory),
            }
        } else {
            IOBuf::new(self.layout)
        }
    }

    /// Takes a buffer back for later use. The buffer must be one of this
    /// pool's size; that is the caller's duty and is not tested.
    pub fn put_buf(&mut self, buf: IOBuf)
        requires
            old(self).wf(),
            buf.wf(),
            buf.spec_capacity() == old(self).spec_layout().spec_size(),
        ensures
            final(self).wf(),
            final(self).spec_layout() == old(self).spec_layout(),
            final(self).free_list() == old(self).free_list().push(buf),
    {
        self.pool.push(buf);
        assert forall|i: int| 0 <= i < self.free_list().len() implies (
        #[trigger] self.free_list()[i]).wf() && self.free_list()[i].spec_capacity()
            == self.spec_layout().spec_size() by {
            if i < old(self).free_list().len() {
                assert(self.free_list()[i] == old(self).free_list()[i]);
            }
        }
    }
}

} // verus!
