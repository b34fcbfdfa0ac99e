//! A device queue without a device: a ring of a fixed number of slots whose
//! chains come back as they went in. It serves drivers of virtual devices
//! and stands in for a hardware ring wherever the queue protocol is to be
//! exercised; what a device does on its own, the completion of chains in
//! flight, is told to it by `complete`.

use crate::devq::{slots_needed, DevQueue, DevQueueError, QueueState};
use crate::iomem::IOBufChain;
use std::collections::VecDeque;
use vstd::prelude::*;

verus! {

/// The number of ring slots that a row of chains takes.
pub open spec fn slots_held(chains: Seq<IOBufChain>) -> nat
    decreases chains.len(),
{
    if chains.len() == 0 {
        0
    } else {
        slots_held(chains.drop_last()) + slots_needed(chains.last())
    }
}

/// A chain that joins a row takes its slots in addition to the row's.
pub proof fn lemma_slots_held_push(chains: Seq<IOBufChain>, chain: IOBufChain)
    ensures
        slots_held(chains.push(chain)) == slots_held(chains) + slots_needed(chain),
{
    assert(chains.push(chain).drop_last() =~= chains);
}

/// The chain at the head of a row holds its slots beside those of the rest.
pub proof fn lemma_slots_held_head(chains: Seq<IOBufChain>)
    requires
        chains.len() > 0,
    ensures
        slots_held(chains) == slots_needed(chains[0]) + slots_held(chains.skip(1)),
    decreases chains.len(),
{
    if chains.len() == 1 {
        assert(chains.drop_last() =~= Seq::<IOBufChain>::empty());
        assert(chains.skip(1) =~= Seq::<IOBufChain>::empty());
    } else {
        lemma_slots_held_head(chains.drop_last());
        assert(chains.drop_last().skip(1) =~= chains.skip(1).drop_last());
        assert(chains.skip(1).last() == chains.last());
    }
}

/// A ring of `slots` slots that hands every chain back as it was posted.
#[derive(Debug)]
pub struct LoopbackQueue {
    slots: usize,
    free: usize,
    pending: VecDeque<IOBufChain>,
    in_flight: VecDeque<IOBufChain>,
    completed: VecDeque<IOBufChain>,
}

impl LoopbackQueue {
    /// The number of slots of the ring, free or taken.
    pub closed spec fn spec_slots(&self) -> usize {
        self.slots
    }

    /// A ring of `slots` slots with no chain in it.
    pub fn new(slots: usize) -> (q: LoopbackQueue)
        ensures
            q.inv(),
            q.spec_slots() == slots,
            q.state().free_slots == slots,
            q.state().line().len() == 0,
    {
        let q = LoopbackQueue {
            slots,
            free: slots,
            pending: VecDeque::new(),
            in_flight: VecDeque::new(),
            completed: VecDeque::new(),
        };
        assert(q.state().line() =~= Seq::<IOBufChain>::empty());
        q
    }

    /// No slot of the ring is ever lost: the free slots and the slots that
    /// the chains in the queue hold are all the slots of the ring.
    pub proof fn lemma_slots_are_conserved(&self)
        requires
            self.inv(),
        ensures
            self.state().free_slots + slots_held(self.state().line()) == self.spec_slots(),
            forall|i: int|
                0 <= i < self.state().line().len() ==> (#[trigger] self.state().line()[i]).wf(),
    {
    }

    /// The number of slots of the ring, free or taken.
    pub fn slots(&self) -> (n: usize)
        ensures
            n == self.spec_slots(),
    {
        self.slots
    }

    /// Tells the queue that the device has completed `n` more chains. The
    /// oldest chains in flight, up to `n` of them, join the completed ones
    /// as they are. Returns how many that were.
    pub fn complete(&mut self, n: usize) -> (done: usize)
        requires
            old(self).inv(),
        ensures
            final(self).inv(),
            final(self).spec_slots() == old(self).spec_slots(),
            done == if n <= old(self).state().in_flight.len() {
                n as int
            } else {
                old(self).state().in_flight.len() as int
            },
            final(self).state() == old(self).state().complete(
                old(self).state().in_flight.take(done as int),
            ),
    {
        let ghost before = self.state();
        let mut done: usize = 0;
        assert(before.complete(before.in_flight.take(0)) =~= before) by {
            assert(before.in_flight.skip(0) =~= before.in_flight);
            assert(before.completed + before.in_flight.take(0) =~= before.completed);
        }
        while done < n && self.in_flight.len() > 0
            invariant
                self.inv(),
                self.slots == old(self).slots,
                done <= n,
                done <= before.in_flight.len(),
                before == old(self).state(),
                self.state() == before.complete(before.in_flight.take(done as int)),
            decreases n - done,
        {
            let ghost now = self.state();
            match self.in_flight.pop_front() {
                Some(chain) => {
                    self.completed.push_back(chain);
                    proof {
                        let next = before.complete(before.in_flight.take(done + 1));
                        assert(before.in_flight.skip(done as int).len() > 0);
                        assert(chain == before.in_flight[done as int]);
                        assert(self.state().in_flight =~= next.in_flight);
                        assert(self.state().completed =~= next.completed);
                        assert(self.state().line() =~= now.line());
                    }
                },
                None => {},
            }
            done += 1;
        }
        done
    }
}

impl DevQueue for LoopbackQueue {
    /// All chains in the queue are well formed, and each fragment of them
    /// holds one slot of the ring.
    closed spec fn inv(&self) -> bool {
        &&& self.free + slots_held(self.state().line()) == self.slots
        &&& forall|i: int|
            0 <= i < self.state().line().len() ==> (#[trigger] self.state().line()[i]).wf()
    }

    closed spec fn state(&self) -> QueueState {
        QueueState {
            free_slots: self.free as nat,
            pending: self.pending@,
            in_flight: self.in_flight@,
            completed: self.completed@,
        }
    }

    fn enqueue(&mut self, bufs: IOBufChain) -> (r: Result<(), IOBufChain>)
        ensures
            final(self).spec_slots() == old(self).spec_slots(),
    {
        let need: usize = bufs.segments.len();
        if need > self.free {
            return Err(bufs);
        }
        proof {
            lemma_slots_held_push(self.state().line(), bufs);
            assert(old(self).state().enqueue(bufs).line() =~= old(self).state().line().push(bufs));
        }
        self.free = self.free - need;
        self.pending.push_back(bufs);
        assert(self.state().line() =~= old(self).state().line().push(bufs));
        assert(self.state().pending == old(self).state().enqueue(bufs).pending);
        Ok(())
    }

    /// A flush of this queue never fails.
    fn flush(&mut self) -> (r: Result<usize, DevQueueError>)
        ensures
            r is Ok,
            final(self).spec_slots() == old(self).spec_slots(),
    {
        let n: usize = self.pending.len();
        self.in_flight.append(&mut self.pending);
        assert(self.state().line() =~= old(self).state().line());
        assert(self.state().pending =~= old(self).state().flush().pending);
        Ok(n)
    }

    fn can_enqueue(&self, how_many_seg: usize) -> (b: bool) {
        how_many_seg <= self.free
    }

    /// A dequeue of this queue fails only where no completed chain waits,
    /// and the chain that is handed back gives up its slots.
    fn dequeue(&mut self) -> (r: Result<IOBufChain, DevQueueError>)
        ensures
            old(self).state().completed.len() > 0 ==> r is Ok,
            r matches Ok(chain) ==> final(self).state().free_slots == old(self).state().free_slots
                + slots_needed(chain),
            final(self).spec_slots() == old(self).spec_slots(),
    {
        match self.completed.pop_front() {
            Some(chain) => {
                proof {
                    let line = old(self).state().line();
                    lemma_slots_held_head(line);
                    assert(line[0] == chain);
                    assert(self.state().line() =~= line.skip(1));
                    assert forall|i: int| 0 <= i < self.state().line().len() implies (
                    #[trigger] self.state().line()[i]).wf() by {
                        assert(self.state().line()[i] == line[i + 1]);
                    }
                }
                self.free = self.free + chain.segments.len();
                Ok(chain)
            },
            None => Err(DevQueueError::QueueEmpty),
        }
    }

    /// This queue learns of completions by `complete` alone, so the count
    /// is always exact and the queue stays as it was.
    fn can_dequeue(&mut self, exact: bool) -> (n: usize)
        ensures
            final(self).state() == old(self).state(),
            final(self).spec_slots() == old(self).spec_slots(),
            n == old(self).state().completed.len(),
    {
        proof {
            let s = self.state();
            assert(s.completed.skip(s.completed.len() as int) =~= Seq::<IOBufChain>::empty());
            assert(s.completed + s.completed.skip(s.completed.len() as int) =~= s.completed);
            assert(s.in_flight.skip(0) =~= s.in_flight);
        }
        self.completed.len()
    }
}

} // verus!
