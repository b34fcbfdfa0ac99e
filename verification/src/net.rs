//! Definitions for network devices, and the link between a pair of device
//! queues and a network stack.
//!
//! A stack takes packets from a device and gives packets to it. Here a
//! device is two queues, one that receives and one that transmits, and a
//! pool of packet buffers. A received chain is one inbound packet. An
//! outbound packet is written into a chain of one buffer, which is then
//! enqueued and flushed.

use crate::devq::{DevQueue, DevQueueError, QueueState};
use crate::iomem::{valid_layout, zeros, IOBufChain, IOBufPool, IOMemError};
use vstd::prelude::*;

pub mod csum;
pub mod rss;

verus! {

/// The size of the largest packet, and so of every packet buffer.
pub const MAX_PACKET_SZ: usize = 2048;

/// The largest packet that the stack may hand over for transmission.
pub const MAX_TRANSMISSION_UNIT: usize = 1536;

/// What can go wrong when the link is set up.
#[derive(Debug, Clone, Copy, PartialEq, Eq, Structural)]
pub enum DevQueuePhyError {
    /// The link could not be set up.
    PhyFailure,
}

impl DevQueuePhyError {
    /// A short description of the error for log lines and messages.
    pub fn message(&self) -> (s: &'static str)
        ensures
            s@ == "Unknown phy failure"@,
    {
        "Unknown phy failure"
    }
}

/// What the device can do, as far as the stack needs to know.
#[derive(Debug, Clone, Copy, PartialEq, Eq, Structural)]
pub struct PhyCapabilities {
    /// The largest packet that may be handed over for transmission.
    pub max_transmission_unit: usize,
    /// The number of packets that may be handed over in one go.
    pub max_burst_size: Option<usize>,
}

/// A received packet: the chain that the receive queue handed back.
#[derive(Debug)]
pub struct RxPacket {
    /// The chain that holds the packet.
    pub iobuf: IOBufChain,
}

impl RxPacket {
    /// Wraps a received chain.
    pub fn new(iobuf: IOBufChain) -> (p: RxPacket)
        ensures
            p.iobuf == iobuf,
    {
        RxPacket { iobuf }
    }
}

/// A packet to be transmitted: the chain that the stack writes it into.
#[derive(Debug)]
pub struct TxPacket {
    /// The chain that the packet is written into.
    pub iobuf: IOBufChain,
}

impl TxPacket {
    /// Wraps a chain that is ready to be written.
    pub fn new(iobuf: IOBufChain) -> (p: TxPacket)
        ensures
            p.iobuf == iobuf,
    {
        TxPacket { iobuf }
    }
}

/// Why a packet was not transmitted.
#[derive(Debug)]
pub enum SendError {
    /// The transmit queue has no room for the packet, which comes back.
    Full(TxPacket),
    /// The packet was posted, but the flush failed.
    Flush(DevQueueError),
}

/// Whether `chain` is one that the link makes for a packet: one buffer of
/// the size of the largest packet, zeroed throughout and at full length.
pub open spec fn is_packet_chain(chain: IOBufChain) -> bool {
    &&& chain.wf()
    &&& chain.segments@.len() == 1
    &&& chain.segments@[0].spec_capacity() == MAX_PACKET_SZ
    &&& chain.segments@[0]@ == zeros(MAX_PACKET_SZ as nat)
    &&& chain.is_fresh_but_for_segments()
}

/// The free list of a pool after one buffer was asked of it: without the
/// buffer that was handed back last, or empty as before.
pub open spec fn after_get(list: Seq<crate::iomem::IOBuf>) -> Seq<crate::iomem::IOBuf> {
    if list.len() > 0 {
        list.drop_last()
    } else {
        list
    }
}

/// Whether a queue that starts in the state `before` can hand out `chain`
/// and be left in the state `after`: the queue has looked for completions,
/// and `chain` was the oldest completed chain then and is gone.
pub open spec fn takes_oldest(before: QueueState, chain: IOBufChain, after: QueueState) -> bool {
    exists|polled: QueueState|
        {
            &&& #[trigger] before.completes_to(polled)
            &&& polled.dequeues_to(after)
            &&& chain == polled.completed[0]
        }
}

/// Whether a receive that starts in the state `before` of the receive
/// queue can hand out `chain` and leave the queue in the state `after`:
/// the oldest completed chain was taken, and then either nothing more was
/// done or one new packet chain was offered to the queue in its place.
pub open spec fn receives(before: QueueState, chain: IOBufChain, after: QueueState) -> bool {
    exists|taken: QueueState|
        {
            &&& #[trigger] takes_oldest(before, chain, taken)
            &&& after == taken || exists|refill: IOBufChain|
                is_packet_chain(refill) && #[trigger] taken.enqueue(refill) == after
        }
}

/// Makes the pair of packets that a receive hands out from the chain for
/// the reply and from what the receive queue answered to the dequeue: the
/// pair where a chain was dequeued, and the chain for the reply back where
/// none was.
pub fn token_pair(reply: IOBufChain, taken: Result<IOBufChain, DevQueueError>) -> (r: Result<
    (RxPacket, TxPacket),
    IOBufChain,
>)
    ensures
        taken matches Ok(chain) ==> r == Ok::<(RxPacket, TxPacket), IOBufChain>(
            (RxPacket { iobuf: chain }, TxPacket { iobuf: reply }),
        ),
        taken is Err ==> r == Err::<(RxPacket, TxPacket), IOBufChain>(reply),
{
    match taken {
        Ok(chain) => Ok((RxPacket::new(chain), TxPacket::new(reply))),
        Err(_) => Err(reply),
    }
}

/// Makes the packet that a transmit hands out from what was answered when
/// a chain was asked for, of the transmit queue or of the pool: the packet
/// around the chain where there is one, and nothing where there is none.
pub fn tx_token(answer: Result<IOBufChain, DevQueueError>) -> (r: Option<TxPacket>)
    ensures
        answer matches Ok(chain) ==> r == Some(TxPacket { iobuf: chain }),
        answer is Err ==> r is None,
{
    match answer {
        Ok(chain) => Some(TxPacket::new(chain)),
        Err(_) => None,
    }
}

/// Puts a buffer into a new chain, from what the pool answered when the
/// buffer was asked for: the chain with the buffer as its only fragment
/// more, and nothing where the pool had no buffer to give.
pub fn chain_with_buffer(chain: IOBufChain, buf: Result<crate::iomem::IOBuf, IOMemError>) -> (r:
    Option<IOBufChain>)
    ensures
        buf matches Ok(b) ==> (r matches Some(c) && c.segments@ == chain.segments@.push(b)
            && c.same_notes(&chain)),
        buf is Err ==> r is None,
{
    match buf {
        Ok(b) => {
            let mut chain = chain;
            chain.append(b);
            Some(chain)
        },
        Err(_) => None,
    }
}

/// Whether a transmit that starts with the link as `before` can hand out
/// `chain` as one that the transmit queue is done with and leave the link
/// as `after`: the oldest completed chain was taken, and the pool is as it
/// was.
pub open spec fn reuses<Q: DevQueue>(
    before: &DevQueuePhy<Q>,
    chain: IOBufChain,
    after: &DevQueuePhy<Q>,
) -> bool {
    &&& takes_oldest(before.tx().state(), chain, after.tx().state())
    &&& after.buffers() == before.buffers()
}

/// Whether a transmit that starts with the link as `before` can hand out
/// `chain` as a new one and leave the link as `after`: the transmit queue
/// has looked for completions and has no completed chain, `chain` is a
/// packet chain, and the pool has given its buffer.
pub open spec fn makes_new<Q: DevQueue>(
    before: &DevQueuePhy<Q>,
    chain: IOBufChain,
    after: &DevQueuePhy<Q>,
) -> bool {
    &&& before.tx().state().completes_to(after.tx().state())
    &&& after.tx().state().completed.len() == 0
    &&& is_packet_chain(chain)
    &&& after.buffers().free_list() == after_get(before.buffers().free_list())
}

/// The link between a network stack and a device with one queue that
/// receives and one that transmits.
pub struct DevQueuePhy<Q: DevQueue> {
    rx_q: Q,
    tx_q: Q,
    pool: IOBufPool,
}

impl<Q: DevQueue> DevQueuePhy<Q> {
    /// The queue that receives.
    pub closed spec fn rx(&self) -> Q {
        self.rx_q
    }

    /// The queue that transmits.
    pub closed spec fn tx(&self) -> Q {
        self.tx_q
    }

    /// The pool of packet buffers.
    pub closed spec fn buffers(&self) -> IOBufPool {
        self.pool
    }

    /// Whether both queues and the pool are in order and the pool's
    /// buffers have the size of the largest packet.
    pub open spec fn wf(&self) -> bool {
        &&& self.rx().inv()
        &&& self.tx().inv()
        &&& self.buffers().wf()
        &&& self.buffers().spec_layout().spec_size() == MAX_PACKET_SZ
        &&& self.buffers().spec_layout().spec_align() == MAX_PACKET_SZ
    }

    /// Links the two queues of a device to the stack, with an empty pool of
    /// packet buffers of the size of the largest packet, aligned to their
    /// size. The queues are taken as they are.
    pub fn new(rx_q: Q, tx_q: Q) -> (r: Result<DevQueuePhy<Q>, DevQueuePhyError>)
        requires
            rx_q.inv(),
            tx_q.inv(),
        ensures
            r matches Ok(phy) && phy.wf() && phy.rx() == rx_q && phy.tx() == tx_q
                && phy.buffers().free_list().len() == 0,
            r matches Ok(phy) ==> phy.buffers().spec_layout().spec_size() == MAX_PACKET_SZ
                && phy.buffers().spec_layout().spec_align() == MAX_PACKET_SZ,
    {
        assert(valid_layout(MAX_PACKET_SZ, MAX_PACKET_SZ)) by {
            assert(2048usize & ((2048 - 1) as usize) == 0) by (bit_vector);
        }
        let pool = IOBufPool::new(MAX_PACKET_SZ, MAX_PACKET_SZ);
        match pool {
            Ok(p) => Ok(DevQueuePhy { rx_q, tx_q, pool: p }),
            Err(_) => Err(DevQueuePhyError::PhyFailure),
        }
    }

    /// Takes the link apart into the queue that receives, the queue that
    /// transmits and the pool of packet buffers.
    pub fn into_parts(self) -> (parts: (Q, Q, IOBufPool))
        ensures
            parts == (self.rx(), self.tx(), self.buffers()),
    {
        (self.rx_q, self.tx_q, self.pool)
    }

    /// What the device can do: packets of up to `MAX_TRANSMISSION_UNIT`
    /// bytes, one at a time.
    pub fn capabilities(&self) -> (caps: PhyCapabilities)
        ensures
            caps == (PhyCapabilities {
                max_transmission_unit: MAX_TRANSMISSION_UNIT,
                max_burst_size: Some(1usize),
            }),
    {
        PhyCapabilities { max_transmission_unit: MAX_TRANSMISSION_UNIT, max_burst_size: Some(1) }
    }

    /// Makes a chain for one packet: a new chain with one buffer from the
    /// pool, zeroed throughout. Whether there is memory for the chain, and
    /// for the buffer if the pool has none that waits, is decided outside;
    /// without it there is no chain and the pool stays as it was. With it,
    /// the pool has given the buffer that was handed back last, if it had
    /// one.
    pub fn packet_chain(&mut self) -> (r: Option<IOBufChain>)
        requires
            old(self).wf(),
        ensures
            final(self).wf(),
            final(self).rx() == old(self).rx(),
            final(self).tx() == old(self).tx(),
            r matches Some(chain) ==> is_packet_chain(chain),
            r is Some ==> final(self).buffers().free_list() == after_get(
                old(self).buffers().free_list(),
            ),
            r is None ==> final(self).buffers().free_list() == old(self).buffers().free_list(),
    {
        let chain: IOBufChain = match IOBufChain::new(0, 1) {
            Ok(chain) => chain,
            Err(_) => {
                return None;
            },
        };
        let buf = self.pool.get_buf();
        chain_with_buffer(chain, buf)
    }

    /// Takes the buffers of a chain that is done with back into the pool,
    /// in the order of the chain. They must be buffers of the pool's size.
    pub fn recycle(&mut self, chain: IOBufChain)
        requires
            old(self).wf(),
            chain.wf(),
            forall|i: int|
                0 <= i < chain.segments@.len() ==> (#[trigger] chain.segments@[i]).spec_capacity()
                    == MAX_PACKET_SZ,
        ensures
            final(self).wf(),
            final(self).rx() == old(self).rx(),
            final(self).tx() == old(self).tx(),
            final(self).buffers().free_list() == old(self).buffers().free_list() + chain.segments@,
    {
        let mut chain = chain;
        let ghost row = chain.segments@;
        let n: usize = chain.segments.len();
        let mut i: usize = 0;
        while i < n
            invariant
                i <= n,
                n == row.len(),
                self.wf(),
                self.rx_q == old(self).rx_q,
                self.tx_q == old(self).tx_q,
                chain.segments@ == row.skip(i as int),
                forall|j: int| 0 <= j < row.len() ==> (#[trigger] row[j]).wf(),
                forall|j: int|
                    0 <= j < row.len() ==> (#[trigger] row[j]).spec_capacity() == MAX_PACKET_SZ,
                self.pool.free_list() == old(self).pool.free_list() + row.take(i as int),
            decreases n - i,
        {
            match chain.segments.pop_front() {
                Some(buf) => {
                    assert(buf == row[i as int]);
                    self.pool.put_buf(buf);
                    assert(chain.segments@ =~= row.skip(i + 1));
                    assert(self.pool.free_list() =~= old(self).pool.free_list() + row.take(i + 1));
                },
                None => {},
            }
            i += 1;
        }
        assert(row.take(n as int) =~= row);
    }

    /// Takes one received packet from the device, if one waits, and with
    /// it a chain in which a reply can be written. The receive queue gets a
    /// new chain offered for the one that was taken, if there is memory for
    /// it. Nothing is taken from the queue unless the chain for the reply
    /// could be made first, and with nothing ready neither the queues nor
    /// the pool are touched beyond the look for completions.
    pub fn receive(&mut self) -> (r: Option<(RxPacket, TxPacket)>)
        requires
            old(self).wf(),
        ensures
            final(self).wf(),
            final(self).tx() == old(self).tx(),
            r matches Some((rx, tx)) ==> rx.iobuf.wf() && is_packet_chain(tx.iobuf) && receives(
                old(self).rx().state(),
                rx.iobuf,
                final(self).rx().state(),
            ),
            r is None ==> old(self).rx().state().completes_to(final(self).rx().state()),
            r is None && final(self).rx().state().completed.len() == 0 ==> final(self).buffers()
                == old(self).buffers(),
            old(self).rx().state().line().len() == 0 ==> r is None && final(self).buffers() == old(
                self,
            ).buffers(),
    {
        let numdeq: usize = self.rx_q.can_dequeue(false);
        let ghost polled = self.rx_q.state();
        if numdeq == 0 {
            return None;
        }
        let reply: IOBufChain = match self.packet_chain() {
            Some(chain) => chain,
            None => {
                return None;
            },
        };
        let taken = self.rx_q.dequeue();
        let (rx, tx) = match token_pair(reply, taken) {
            Ok(pair) => pair,
            Err(reply) => {
                self.recycle(reply);
                return None;
            },
        };
        let ghost taken_state = self.rx_q.state();
        assert(takes_oldest(old(self).rx().state(), rx.iobuf, taken_state)) by {
            assert(old(self).rx().state().completes_to(polled));
        }
        match self.packet_chain() {
            Some(refill) => {
                match self.rx_q.enqueue(refill) {
                    Ok(()) => {},
                    Err(back) => {
                        self.recycle(back);
                    },
                }
                assert(taken_state.enqueue(refill) == self.rx_q.state());
            },
            None => {},
        }
        Some((rx, tx))
    }

    /// Hands out a chain in which a packet can be written for
    /// transmission. Where the transmit queue has a chain that it is done
    /// with, the oldest of them is taken and handed out, and the pool is
    /// left alone; if the queue fails to give it, nothing is handed out. A
    /// new chain is made only where the queue has no chain that it is done
    /// with.
    pub fn transmit(&mut self) -> (r: Option<TxPacket>)
        requires
            old(self).wf(),
        ensures
            final(self).wf(),
            final(self).rx() == old(self).rx(),
            r matches Some(tx) ==> tx.iobuf.wf() && (reuses(old(self), tx.iobuf, final(self))
                || makes_new(old(self), tx.iobuf, final(self))),
            r is None ==> old(self).tx().state().completes_to(final(self).tx().state()),
            r is None ==> final(self).buffers().free_list() == old(self).buffers().free_list(),
    {
        let numdeq: usize = self.tx_q.can_dequeue(false);
        let ghost polled = self.tx_q.state();
        assert(old(self).tx().state().completes_to(polled));
        let answer: Result<IOBufChain, DevQueueError> = if numdeq > 0 {
            self.tx_q.dequeue()
        } else {
            match self.packet_chain() {
                Some(chain) => Ok(chain),
                None => Err(DevQueueError::OutOfMemory),
            }
        };
        tx_token(answer)
    }

    /// Transmits a packet: posts its chain on the transmit queue and
    /// flushes the queue. A packet that the queue has no room for comes
    /// back as it was and the queue stays as it was. The answer is the
    /// number of chains that the flush handed to the device.
    pub fn send(&mut self, packet: TxPacket) -> (r: Result<usize, SendError>)
        requires
            old(self).wf(),
            packet.iobuf.wf(),
        ensures
            final(self).wf(),
            final(self).rx() == old(self).rx(),
            final(self).buffers() == old(self).buffers(),
            !old(self).tx().state().accepts(packet.iobuf) ==> final(self).tx().state()
                == old(self).tx().state(),
            !old(self).tx().state().accepts(packet.iobuf) ==> (r matches Err(SendError::Full(back))
                && back == packet),
            old(self).tx().state().accepts(packet.iobuf) ==> match r {
                Ok(n) => n == old(self).tx().state().pending.len() + 1 && final(self).tx().state()
                    == old(self).tx().state().enqueue(packet.iobuf).flush(),
                Err(SendError::Flush(_)) => final(self).tx().state()
                    == old(self).tx().state().enqueue(packet.iobuf),
                Err(SendError::Full(_)) => false,
            },
    {
        match self.tx_q.enqueue(packet.iobuf) {
            Ok(()) => {},
            Err(back) => {
                return Err(SendError::Full(TxPacket::new(back)));
            },
        }
        match self.tx_q.flush() {
            Ok(n) => Ok(n),
            Err(e) => Err(SendError::Flush(e)),
        }
    }
}

} // verus!
