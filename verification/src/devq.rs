//! The queue interface between a driver and a hardware ring, and the model
//! that says what every queue owes its users.
//!
//! A chain passes through a queue in four steps. It is enqueued and waits,
//! pending, for the next flush. The flush hands it to the device, where it
//! is in flight. The device completes it, and it waits to be dequeued. The
//! dequeue hands it back to the driver. Chains never overtake each other.

use crate::iomem::IOBufChain;
use vstd::prelude::*;

verus! {

/// What can go wrong at a device queue.
#[derive(Debug, Clone, Copy, PartialEq, Eq, Structural)]
pub enum DevQueueError {
    /// A chain or a fragment that was handed in failed a sanity check.
    BufferInvalid,
    /// Memory that the operation needed could not be had.
    OutOfMemory,
    /// The ring has no room for more fragments.
    QueueFull,
    /// No completed chain waits to be dequeued.
    QueueEmpty,
    /// The ring or the device failed in a way that has no other name.
    QueueFailure,
}

impl DevQueueError {
    /// A short description of the error for log lines and messages.
    pub fn message(&self) -> (s: &'static str)
        ensures
            s@ == match *self {
                DevQueueError::BufferInvalid => "one of the supplied buffers was invalid"@,
                DevQueueError::OutOfMemory => "the operation caused an out-of-memory condition"@,
                DevQueueError::QueueFull => "the queue was full. Can't enqueue more buffers."@,
                DevQueueError::QueueEmpty => "the queue was empty. Nothing to dequeue."@,
                DevQueueError::QueueFailure => "Unknown queue failure"@,
            },
    {
        match self {
            DevQueueError::BufferInvalid => "one of the supplied buffers was invalid",
            DevQueueError::OutOfMemory => "the operation caused an out-of-memory condition",
            DevQueueError::QueueFull => "the queue was full. Can't enqueue more buffers.",
            DevQueueError::QueueEmpty => "the queue was empty. Nothing to dequeue.",
            DevQueueError::QueueFailure => "Unknown queue failure",
        }
    }
}

/// The number of ring slots that a chain takes: one for each fragment.
pub open spec fn slots_needed(chain: IOBufChain) -> nat {
    chain.segments@.len()
}

/// Whether `after` may be what the device made of `before`: the same
/// number of fragments, each of the capacity it had. What the fragments
/// hold and what is noted of the message is the device's to change.
pub open spec fn same_buffers(before: IOBufChain, after: IOBufChain) -> bool {
    &&& before.segments@.len() == after.segments@.len()
    &&& forall|j: int|
        0 <= j < before.segments@.len() ==> (#[trigger] before.segments@[j]).spec_capacity()
            == after.segments@[j].spec_capacity()
}

/// What a queue's users can tell of its state.
pub struct QueueState {
    /// Ring slots that are free for new fragments.
    pub free_slots: nat,
    /// Chains that were enqueued and wait for the next flush, oldest first.
    pub pending: Seq<IOBufChain>,
    /// Chains that the device holds, oldest first.
    pub in_flight: Seq<IOBufChain>,
    /// Chains that the device has completed and that wait to be dequeued,
    /// oldest first.
    pub completed: Seq<IOBufChain>,
}

impl QueueState {
    /// Whether the ring has room for `how_many_seg` more fragments.
    pub open spec fn can_enqueue(self, how_many_seg: nat) -> bool {
        how_many_seg <= self.free_slots
    }

    /// Whether the ring has room for all fragments of `chain`.
    pub open spec fn accepts(self, chain: IOBufChain) -> bool {
        self.can_enqueue(slots_needed(chain))
    }

    /// The state after `chain` was offered: posted as a whole where there
    /// is room for it, and the state as it was where there is not.
    pub open spec fn enqueue(self, chain: IOBufChain) -> QueueState {
        if self.accepts(chain) {
            QueueState {
                free_slots: (self.free_slots - slots_needed(chain)) as nat,
                pending: self.pending.push(chain),
                ..self
            }
        } else {
            self
        }
    }

    /// The state after a flush: all pending chains are in flight, behind
    /// those that were in flight before.
    pub open spec fn flush(self) -> QueueState {
        QueueState {
            pending: Seq::empty(),
            in_flight: self.in_flight + self.pending,
            ..self
        }
    }

    /// The state after the device completed the oldest chains in flight
    /// and left them as `done`.
    pub open spec fn complete(self, done: Seq<IOBufChain>) -> QueueState
        recommends
            done.len() <= self.in_flight.len(),
    {
        QueueState {
            in_flight: self.in_flight.skip(done.len() as int),
            completed: self.completed + done,
            ..self
        }
    }

    /// Whether `after` can be the state once the queue has looked for
    /// completions: some of the oldest chains in flight have joined the
    /// completed ones, in their order and with their buffers, and no ring
    /// slot was taken.
    pub open spec fn completes_to(self, after: QueueState) -> bool {
        let done = after.completed.skip(self.completed.len() as int);
        &&& after.pending == self.pending
        &&& after.free_slots >= self.free_slots
        &&& self.completed.len() <= after.completed.len()
        &&& done.len() <= self.in_flight.len()
        &&& after.completed == self.completed + done
        &&& after.in_flight == self.in_flight.skip(done.len() as int)
        &&& forall|i: int|
            0 <= i < done.len() ==> same_buffers(#[trigger] self.in_flight[i], done[i])
    }

    /// Whether `after` can be the state once the oldest completed chain
    /// was handed back: that chain is gone, the others stay as they were,
    /// and no ring slot was taken.
    pub open spec fn dequeues_to(self, after: QueueState) -> bool {
        &&& self.completed.len() > 0
        &&& after.completed == self.completed.skip(1)
        &&& after.in_flight == self.in_flight
        &&& after.pending == self.pending
        &&& after.free_slots >= self.free_slots
    }

    /// All chains that the queue holds, in the order in which they will be
    /// handed back.
    pub open spec fn line(self) -> Seq<IOBufChain> {
        self.completed + self.in_flight + self.pending
    }
}

/// A device queue: the one interface through which a driver gives chains to
/// a hardware ring and takes them back. Each kind of ring implements it for
/// itself and keeps its own descriptors; what is asked of all of them is
/// said here, over the state that `state` shows.
pub trait DevQueue {
    /// What holds of the queue between calls.
    spec fn inv(&self) -> bool;

    /// What the queue's users can tell of its state.
    spec fn state(&self) -> QueueState;

    /// Posts a chain on the ring, to be handed to the device by the next
    /// `flush`. A chain is posted as a whole or not at all: where the ring
    /// has no room for all its fragments, the queue stays as it was and the
    /// caller gets the chain back, the very chain it handed in.
    fn enqueue(&mut self, bufs: IOBufChain) -> (r: Result<(), IOBufChain>)
        requires
            old(self).inv(),
            bufs.wf(),
        ensures
            final(self).inv(),
            final(self).state() == old(self).state().enqueue(bufs),
            old(self).state().accepts(bufs) ==> r is Ok,
            !old(self).state().accepts(bufs) ==> r == Err::<(), IOBufChain>(bufs),
    ;

    /// Tells the device of all chains posted since the last flush and
    /// returns how many that were. With nothing pending this is no error:
    /// the answer is zero. A flush that fails changes nothing.
    fn flush(&mut self) -> (r: Result<usize, DevQueueError>)
        requires
            old(self).inv(),
        ensures
            final(self).inv(),
            r matches Ok(n) ==> n == old(self).state().pending.len() && final(self).state()
                == old(self).state().flush(),
            r is Err ==> final(self).state() == old(self).state(),
            old(self).state().pending.len() == 0 ==> r is Ok,
    ;

    /// Whether the ring has room for `how_many_seg` more fragments.
    fn can_enqueue(&self, how_many_seg: usize) -> (b: bool)
        requires
            self.inv(),
        ensures
            b == self.state().can_enqueue(how_many_seg as nat),
    ;

    /// Hands back the oldest completed chain. With none completed the
    /// answer is `QueueEmpty`, and it is that only then; a dequeue that
    /// fails changes nothing.
    fn dequeue(&mut self) -> (r: Result<IOBufChain, DevQueueError>)
        requires
            old(self).inv(),
        ensures
            final(self).inv(),
            r matches Ok(chain) ==> chain.wf() && old(self).state().dequeues_to(final(self).state())
                && chain == old(self).state().completed[0],
            r matches Err(e) ==> final(self).state() == old(self).state() && (e
                == DevQueueError::QueueEmpty <==> old(self).state().completed.len() == 0),
            old(self).state().completed.len() == 0 ==> r is Err,
    ;

    /// Looks for completions and returns how many chains wait to be
    /// dequeued. With `exact` the count is exact. Without it the queue may
    /// count fewer, but never none while a completed chain waits.
    fn can_dequeue(&mut self, exact: bool) -> (n: usize)
        requires
            old(self).inv(),
        ensures
            final(self).inv(),
            old(self).state().completes_to(final(self).state()),
            n <= final(self).state().completed.len(),
            old(self).state().completed.len() > 0 ==> n >= 1,
            final(self).state().completed.len() > 0 ==> n >= 1,
            exact ==> n == final(self).state().completed.len(),
    ;
}

/// An enqueue that the ring has no room for changes nothing: a queue with
/// exactly `k` free slots turns down a chain of `k + 1` fragments, stays as
/// it was, and still has room for `k` fragments afterwards.
pub proof fn lemma_rejected_enqueue_changes_nothing(q: QueueState, chain: IOBufChain, k: nat)
    requires
        q.free_slots == k,
        slots_needed(chain) == k + 1,
    ensures
        !q.accepts(chain),
        q.enqueue(chain) == q,
        q.enqueue(chain).can_enqueue(k),
{
}

/// An enqueue never posts part of a chain: either all its fragments take
/// their slots and the chain is the newest pending one, or nothing changes.
pub proof fn lemma_enqueue_is_all_or_nothing(q: QueueState, chain: IOBufChain)
    ensures
        q.accepts(chain) ==> q.enqueue(chain).free_slots + slots_needed(chain) == q.free_slots
            && q.enqueue(chain).pending == q.pending.push(chain),
        !q.accepts(chain) ==> q.enqueue(chain) == q,
        q.enqueue(chain).in_flight == q.in_flight,
        q.enqueue(chain).completed == q.completed,
{
}

/// Chains leave a queue in the order in which they entered it. The line of
/// all chains in the queue grows at its end by an enqueue, is left alone by
/// a flush and by completions that leave the chains as they are, and loses
/// its head, which is the chain handed back, by a dequeue.
pub proof fn lemma_queue_is_fifo(q: QueueState, chain: IOBufChain, done: nat, after: QueueState)
    ensures
        q.accepts(chain) ==> q.enqueue(chain).line() == q.line().push(chain),
        q.flush().line() == q.line(),
        done <= q.in_flight.len() ==> q.complete(q.in_flight.take(done as int)).line() == q.line(),
        q.dequeues_to(after) ==> after.line() == q.line().skip(1) && q.line()[0] == q.completed[0],
{
    if q.accepts(chain) {
        assert(q.enqueue(chain).line() =~= q.line().push(chain));
    }
    assert(q.flush().line() =~= q.line());
    if done <= q.in_flight.len() {
        assert(q.complete(q.in_flight.take(done as int)).line() =~= q.line());
    }
    if q.dequeues_to(after) {
        assert(after.line() =~= q.line().skip(1));
    }
}

/// Two chains that go through an empty queue one after the other come back
/// in that order: after both were enqueued, flushed and completed, the
/// first dequeue hands back the first chain and leaves the second as the
/// one that the next dequeue hands back.
pub proof fn lemma_first_in_first_out(
    q: QueueState,
    a: IOBufChain,
    b: IOBufChain,
    after: QueueState,
)
    requires
        q.line().len() == 0,
        q.accepts(a),
        q.enqueue(a).accepts(b),
        q.enqueue(a).enqueue(b).flush().complete(seq![a, b]).dequeues_to(after),
    ensures
        q.enqueue(a).enqueue(b).flush().in_flight == seq![a, b],
        q.enqueue(a).enqueue(b).flush().complete(seq![a, b]).completed[0] == a,
        after.completed.len() == 1,
        after.completed[0] == b,
{
    assert(q.pending =~= Seq::<IOBufChain>::empty());
    assert(q.in_flight =~= Seq::<IOBufChain>::empty());
    assert(q.completed =~= Seq::<IOBufChain>::empty());
    let flushed = q.enqueue(a).enqueue(b).flush();
    assert(flushed.in_flight =~= seq![a, b]);
    let completed = flushed.complete(seq![a, b]);
    assert(completed.completed =~= seq![a, b]);
}

/// While a completed chain waits, a look for completions finds at least
/// that one: completions only add to the chains that wait.
pub proof fn lemma_completed_chains_stay(q: QueueState, after: QueueState)
    requires
        q.completes_to(after),
    ensures
        after.completed.len() >= q.completed.len(),
        forall|i: int| 0 <= i < q.completed.len() ==> after.completed[i] == q.completed[i],
        after.line().len() == q.line().len(),
{
}

} // verus!
