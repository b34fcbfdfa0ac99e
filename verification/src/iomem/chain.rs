//! The chain of buffers that holds one message in fragments, and what the
//! driver notes about the message.

use crate::iomem::buf::IOBuf;
use crate::iomem::IOMemError;
use std::collections::VecDeque;
use vstd::prelude::*;

verus! {

/// The contents of a row of buffers, one sequence of bytes for each.
pub open spec fn contents(segments: Seq<IOBuf>) -> Seq<Seq<u8>> {
    segments.map_values(|b: IOBuf| b@)
}

/// The number of bytes in the first `k` of `fragments`.
pub open spec fn bytes_before(fragments: Seq<Seq<u8>>, k: int) -> nat
    recommends
        0 <= k <= fragments.len(),
{
    fragments.take(k).flatten().len()
}

/// `fragments` with all but the first `used` of them emptied.
pub open spec fn only_used(fragments: Seq<Seq<u8>>, used: int) -> Seq<Seq<u8>> {
    Seq::new(
        fragments.len(),
        |j: int|
            if j < used {
                fragments[j]
            } else {
                Seq::<u8>::empty()
            },
    )
}

/// Taking one more fragment adds its bytes, and the bytes of all fragments
/// are those of the fragments up to and with `k`, then those of the rest.
pub proof fn lemma_flatten_split(fragments: Seq<Seq<u8>>, k: int)
    requires
        0 <= k < fragments.len(),
    ensures
        fragments.take(k + 1).flatten() == fragments.take(k).flatten() + fragments[k],
        fragments.flatten() == fragments.take(k + 1).flatten() + fragments.skip(k + 1).flatten(),
        bytes_before(fragments, k + 1) == bytes_before(fragments, k) + fragments[k].len(),
{
    assert(fragments.take(k + 1) =~= fragments.take(k).push(fragments[k]));
    fragments.take(k).lemma_flatten_push(fragments[k]);
    assert(fragments =~= fragments.take(k + 1) + fragments.skip(k + 1));
    vstd::seq_lib::lemma_flatten_concat(fragments.take(k + 1), fragments.skip(k + 1));
}

/// The bytes in the first `k` fragments are no more than those in the first
/// `m`, for `k` up to `m`.
pub proof fn lemma_bytes_before_grows(fragments: Seq<Seq<u8>>, k: int, m: int)
    requires
        0 <= k <= m <= fragments.len(),
    ensures
        bytes_before(fragments, k) <= bytes_before(fragments, m),
    decreases m - k,
{
    if k < m {
        lemma_flatten_split(fragments, m - 1);
        lemma_bytes_before_grows(fragments, k, m - 1);
    }
}

/// Whether a completion that reports `total_len` bytes in `used` fragments
/// agrees with `fragments`: the first `used` of them hold exactly
/// `total_len` bytes, and no fewer of them do.
pub open spec fn fits(fragments: Seq<Seq<u8>>, total_len: int, used: int) -> bool {
    &&& 0 <= used <= fragments.len()
    &&& bytes_before(fragments, used) == total_len
    &&& forall|j: int| 0 <= j < used ==> #[trigger] bytes_before(fragments, j) < total_len
}

/// At most one fragment count agrees with a given number of bytes.
pub proof fn lemma_fits_is_unique(fragments: Seq<Seq<u8>>, total_len: int, a: int, b: int)
    requires
        fits(fragments, total_len, a),
        fits(fragments, total_len, b),
    ensures
        a == b,
{
    if a < b {
        assert(bytes_before(fragments, a) < total_len);
    } else if b < a {
        assert(bytes_before(fragments, b) < total_len);
    }
}

/// A row of empty fragments holds no bytes.
pub proof fn lemma_empty_fragments(fragments: Seq<Seq<u8>>)
    requires
        forall|j: int| 0 <= j < fragments.len() ==> (#[trigger] fragments[j]).len() == 0,
    ensures
        fragments.flatten() == Seq::<u8>::empty(),
    decreases fragments.len(),
{
    if fragments.len() > 0 {
        lemma_empty_fragments(fragments.drop_first());
        assert(fragments.first() =~= Seq::<u8>::empty());
        assert(fragments.flatten() =~= Seq::<u8>::empty());
    }
}

/// Emptying all but the first `used` fragments leaves the bytes of those
/// first fragments, which are the first bytes of the message.
pub proof fn lemma_only_used_bytes(fragments: Seq<Seq<u8>>, used: int)
    requires
        0 <= used <= fragments.len(),
    ensures
        only_used(fragments, used).flatten() == fragments.take(used).flatten(),
        only_used(fragments, used).flatten() == fragments.flatten().take(
            bytes_before(fragments, used) as int,
        ),
{
    let kept = only_used(fragments, used);
    assert(kept =~= kept.take(used) + kept.skip(used));
    assert(kept.take(used) =~= fragments.take(used));
    lemma_empty_fragments(kept.skip(used));
    vstd::seq_lib::lemma_flatten_concat(kept.take(used), kept.skip(used));
    assert(kept.flatten() =~= fragments.take(used).flatten());
    assert(fragments =~= fragments.take(used) + fragments.skip(used));
    vstd::seq_lib::lemma_flatten_concat(fragments.take(used), fragments.skip(used));
    assert(fragments.flatten().take(bytes_before(fragments, used) as int) =~= fragments.take(
        used,
    ).flatten());
}

/// `VecDeque::try_reserve_exact`, by which `IOBufChain::new` asks for room
/// for the fragments before it builds the chain. The call leaves the items
/// as they are, and whether the room was had is the allocator's answer.
#[verifier::external_body]
fn reserve_segments(segments: &mut VecDeque<IOBuf>, additional: usize) -> (reserved: bool)
    ensures
        final(segments)@ == old(segments)@,
{
    segments.try_reserve_exact(additional).is_ok()
}

/// A chain of buffers that make up one message, in the order in which they
/// go over the wire, with what the driver notes about the message.
#[derive(Debug)]
pub struct IOBufChain {
    /// Position in the completion queue (set by the driver).
    pub cqidx: usize,
    /// Checksum flags (set by the driver on receive).
    pub csum_flags: u32,
    /// Checksum data (set by the driver on receive).
    pub csum_data: u32,
    /// VLAN tag (set by the driver on receive).
    pub vtag: Option<u32>,
    /// Flags for the driver's own use.
    pub flags: u32,
    /// Flow id of receive-side scaling.
    pub rss_flow_id: Option<usize>,
    /// Hash type of receive-side scaling.
    pub rss_type: u32,
    /// The fragments of the message.
    pub segments: VecDeque<IOBuf>,
}

impl IOBufChain {
    /// The contents of the fragments, in order.
    pub open spec fn fragments(&self) -> Seq<Seq<u8>> {
        contents(self.segments@)
    }

    /// The message as one sequence of bytes: the fragments one after the
    /// other.
    pub open spec fn bytes(&self) -> Seq<u8> {
        self.fragments().flatten()
    }

    /// Whether every fragment is a well-formed buffer. Every operation of
    /// the chain keeps it so.
    pub open spec fn wf(&self) -> bool {
        forall|i: int| 0 <= i < self.segments@.len() ==> (#[trigger] self.segments@[i]).wf()
    }

    /// Whether two chains agree in all that is noted about the message,
    /// whatever their fragments are.
    pub open spec fn same_notes(&self, other: &IOBufChain) -> bool {
        &&& self.cqidx == other.cqidx
        &&& self.csum_flags == other.csum_flags
        &&& self.csum_data == other.csum_data
        &&& self.vtag == other.vtag
        &&& self.flags == other.flags
        &&& self.rss_flow_id == other.rss_flow_id
        &&& self.rss_type == other.rss_type
    }

    /// Whether nothing is noted of the message, as in a chain that `new`
    /// made with no flags, whatever the fragments are.
    pub open spec fn is_fresh_but_for_segments(&self) -> bool {
        &&& self.cqidx == 0
        &&& self.csum_flags == 0
        &&& self.csum_data == 0
        &&& self.vtag.is_none()
        &&& self.flags == 0
        &&& self.rss_flow_id.is_none()
        &&& self.rss_type == 0
    }

    /// Whether the chain is one that `new` makes for `flags`: no fragments,
    /// and nothing noted but the flags.
    pub open spec fn is_fresh(&self, flags: u32) -> bool {
        &&& self.segments@.len() == 0
        &&& self.cqidx == 0
        &&& self.csum_flags == 0
        &&& self.csum_data == 0
        &&& self.vtag.is_none()
        &&& self.flags == flags
        &&& self.rss_flow_id.is_none()
        &&& self.rss_type == 0
    }

    /// An empty chain with room for `len` fragments. Whether the room can
    /// be had is the allocator's answer; where it cannot, the result is
    /// `OutOfMemory`.
    pub fn new(flags: u32, len: usize) -> (r: Result<IOBufChain, IOMemError>)
        ensures
            r matches Ok(c) ==> c.is_fresh(flags) && c.wf(),
            r matches Err(e) ==> e == IOMemError::OutOfMemory,
    {
        let mut vd: VecDeque<IOBuf> = VecDeque::new();
        let reserved: bool = reserve_segments(&mut vd, len);
        IOBufChain::from_reserved(flags, vd, reserved)
    }

    /// Builds the empty chain from the storage for its fragments, if the
    /// room for them was reserved, and reports `OutOfMemory` if it was not.
    pub fn from_reserved(flags: u32, storage: VecDeque<IOBuf>, reserved: bool) -> (r: Result<
        IOBufChain,
        IOMemError,
    >)
        requires
            storage@.len() == 0,
        ensures
            reserved ==> (r matches Ok(c) && c.is_fresh(flags) && c.wf() && c.segments == storage),
            !reserved ==> (r matches Err(e) && e == IOMemError::OutOfMemory),
    {
        if reserved {
            Ok(
                IOBufChain {
                    cqidx: 0,
                    flags,
                    csum_flags: 0,
                    csum_data: 0,
                    vtag: None,
                    rss_flow_id: None,
                    rss_type: 0,
                    segments: storage,
                },
            )
        } else {
            Err(IOMemError::OutOfMemory)
        }
    }

    /// Adds a fragment at the end of the chain.
    pub fn append(&mut self, buf: IOBuf)
        ensures
            final(self).segments@ == old(self).segments@.push(buf),
            final(self).fragments() == old(self).fragments().push(buf@),
            final(self).bytes() == old(self).bytes() + buf@,
            final(self).same_notes(old(self)),
            old(self).wf() && buf.wf() ==> final(self).wf(),
    {
        self.segments.push_back(buf);
        proof {
            assert(self.fragments() =~= old(self).fragments().push(buf@));
            old(self).fragments().lemma_flatten_push(buf@);
        }
    }

    /// Whether a completion that reports `total_len` bytes in `segments`
    /// fragments agrees with the chain.
    pub open spec fn meta_data_fits(&self, total_len: usize, segments: usize) -> bool {
        fits(self.fragments(), total_len as int, segments as int)
    }

    /// Tells whether a completion that reports `total_len` bytes in
    /// `segments` fragments agrees with the chain, which is what
    /// `set_meta_data` asks of its caller.
    pub fn check_meta_data(&self, total_len: usize, segments: usize) -> (ok: bool)
        ensures
            ok == self.meta_data_fits(total_len, segments),
    {
        let ghost frags = self.fragments();
        let nseg: usize = self.segments.len();
        let mut remaining: usize = total_len;
        let mut i: usize = 0;
        assert(frags.take(0) =~= Seq::<Seq<u8>>::empty());
        while i < nseg && remaining > 0
            invariant
                i <= nseg,
                nseg == self.segments@.len(),
                frags == self.fragments(),
                bytes_before(frags, i as int) + remaining == total_len,
                forall|j: int| 0 <= j < i ==> #[trigger] bytes_before(frags, j) < total_len,
            decreases nseg - i,
        {
            let seglen: usize = self.segments[i].len();
            proof {
                lemma_flatten_split(frags, i as int);
                assert(frags[i as int] == self.segments@[i as int]@);
            }
            if seglen > remaining {
                proof {
                    assert forall|used: int| !fits(frags, total_len as int, used) by {
                        if 0 <= used <= i {
                            lemma_bytes_before_grows(frags, used, i as int);
                        } else if i < used <= nseg {
                            lemma_bytes_before_grows(frags, i + 1, used);
                        }
                    }
                }
                return false;
            }
            remaining -= seglen;
            i += 1;
        }
        proof {
            if remaining == 0 {
                assert(fits(frags, total_len as int, i as int));
                if fits(frags, total_len as int, segments as int) {
                    lemma_fits_is_unique(frags, total_len as int, i as int, segments as int);
                }
            } else {
                assert forall|used: int| !fits(frags, total_len as int, used) by {
                    if 0 <= used <= nseg {
                        lemma_bytes_before_grows(frags, used, nseg as int);
                    }
                }
            }
        }
        remaining == 0 && i == segments
    }

    /// Notes what the device reported when it completed the chain: the
    /// position in the queue, the flow id and hash type of receive-side
    /// scaling, and how much was received. The first `segments` fragments
    /// hold the `total_len` bytes of the message and stay as they are; every
    /// fragment after them is cut to length zero. The report must agree with
    /// the chain: a device that reports otherwise has lost track of its
    /// ring, and the driver must not go on with what it says.
    pub fn set_meta_data(
        &mut self,
        total_len: usize,
        segments: usize,
        cqidx: usize,
        rss_flow_id: Option<usize>,
        rsstype: u32,
    )
        requires
            old(self).wf(),
            old(self).meta_data_fits(total_len, segments),
        ensures
            final(self).wf(),
            final(self).cqidx == cqidx,
            final(self).rss_flow_id == rss_flow_id,
            final(self).rss_type == rsstype,
            final(self).csum_flags == old(self).csum_flags,
            final(self).csum_data == old(self).csum_data,
            final(self).vtag == old(self).vtag,
            final(self).flags == old(self).flags,
            final(self).segments@.len() == old(self).segments@.len(),
            forall|j: int|
                0 <= j < old(self).segments@.len() ==> (
                #[trigger] final(self).segments@[j]).spec_capacity()
                    == old(self).segments@[j].spec_capacity(),
            final(self).fragments() == only_used(old(self).fragments(), segments as int),
            final(self).bytes() == old(self).bytes().take(total_len as int),
            final(self).bytes().len() == total_len,
    {
        self.cqidx = cqidx;
        self.rss_flow_id = rss_flow_id;
        self.rss_type = rsstype;
        let ghost before = self.segments@;
        let ghost frags = contents(before);
        let nseg: usize = self.segments.len();
        let mut remaining: usize = total_len;
        let mut i: usize = 0;
        assert(frags.take(0) =~= Seq::<Seq<u8>>::empty());
        while i < nseg
            invariant
                i <= nseg,
                nseg == before.len(),
                self.segments@.len() == nseg,
                frags == contents(before),
                fits(frags, total_len as int, segments as int),
                forall|j: int| 0 <= j < before.len() ==> (#[trigger] before[j]).wf(),
                forall|j: int| 0 <= j < nseg - i ==> #[trigger] self.segments@[j] == before[i + j],
                forall|j: int|
                    0 <= j < i ==> {
                        let seg = #[trigger] self.segments@[nseg - i + j];
                        &&& seg.wf()
                        &&& seg.spec_capacity() == before[j].spec_capacity()
                        &&& seg@ == only_used(frags, segments as int)[j]
                    },
                i <= segments ==> bytes_before(frags, i as int) + remaining == total_len,
                i > segments ==> remaining == 0,
                self.cqidx == cqidx,
                self.rss_flow_id == rss_flow_id,
                self.rss_type == rsstype,
                self.csum_flags == old(self).csum_flags,
                self.csum_data == old(self).csum_data,
                self.vtag == old(self).vtag,
                self.flags == old(self).flags,
            decreases nseg - i,
        {
            let ghost row = self.segments@;
            assert(row[0] == before[i + 0]);
            match self.segments.pop_front() {
                Some(seg) => {
                    let mut seg = seg;
                    proof {
                        lemma_flatten_split(frags, i as int);
                        assert(frags[i as int] == before[i as int]@);
                    }
                    if remaining == 0 {
                        seg.truncate(0);
                        assert(seg@ =~= Seq::<u8>::empty());
                        assert(i >= segments) by {
                            if i < segments {
                                assert(bytes_before(frags, i as int) < total_len);
                            }
                        }
                    } else {
                        assert(i < segments);
                        proof {
                            if i + 1 < segments {
                                assert(bytes_before(frags, i + 1) < total_len);
                            }
                        }
                        remaining -= seg.len();
                    }
                    self.segments.push_back(seg);
                    assert forall|j: int| 0 <= j < nseg - (i + 1) implies
                        #[trigger] self.segments@[j] == before[i + 1 + j] by {
                        assert(self.segments@[j] == row[j + 1]);
                    }
                    assert forall|j: int| 0 <= j < i + 1 implies {
                        let s = #[trigger] self.segments@[nseg - (i + 1) + j];
                        &&& s.wf()
                        &&& s.spec_capacity() == before[j].spec_capacity()
                        &&& s@ == only_used(frags, segments as int)[j]
                    } by {
                        if j < i {
                            assert(self.segments@[nseg - (i + 1) + j] == row[nseg - i + j]);
                        }
                    }
                },
                None => {},
            }
            i += 1;
        }
        proof {
            assert forall|j: int| 0 <= j < nseg implies {
                let seg = #[trigger] self.segments@[j];
                &&& seg.wf()
                &&& seg.spec_capacity() == before[j].spec_capacity()
                &&& seg@ == only_used(frags, segments as int)[j]
            } by {
                assert(self.segments@[nseg - i + j] == self.segments@[j]);
            }
            assert(self.fragments() =~= only_used(frags, segments as int));
            lemma_only_used_bytes(frags, segments as int);
        }
    }

    /// The byte at `index` of the message, counted through the fragments in
    /// order, or `OutOfRange` if the message has no such byte.
    pub fn index(&self, index: usize) -> (r: Result<&u8, IOMemError>)
        ensures
            index < self.bytes().len() ==> (r matches Ok(byte) && *byte
                == self.bytes()[index as int]),
            index >= self.bytes().len() ==> (r matches Err(e) && e == IOMemError::OutOfRange),
    {
        let ghost frags = self.fragments();
        let nseg: usize = self.segments.len();
        let mut cidx: usize = index;
        let mut i: usize = 0;
        while i < nseg
            invariant
                i <= nseg,
                nseg == self.segments@.len(),
                frags == self.fragments(),
                index == bytes_before(frags, i as int) + cidx,
            decreases nseg - i,
        {
            let seg: &IOBuf = &self.segments[i];
            let seglen: usize = seg.len();
            proof {
                lemma_flatten_split(frags, i as int);
                assert(frags[i as int] == self.segments@[i as int]@);
            }
            if cidx < seglen {
                let byte: &u8 = &seg[cidx];
                return Ok(byte);
            }
            cidx -= seglen;
            i += 1;
        }
        assert(frags.take(nseg as int) =~= frags);
        Err(IOMemError::OutOfRange)
    }
}

} // verus!
