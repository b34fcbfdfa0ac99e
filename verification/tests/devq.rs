use driverkit::devq::{DevQueue, DevQueueError};
use driverkit::iomem::{IOBuf, IOBufChain, Layout};
use driverkit::loopback::LoopbackQueue;

fn chain(tag: u32, segments: usize) -> IOBufChain {
    let mut c = IOBufChain::new(tag, segments).unwrap();
    for i in 0..segments {
        let mut b = IOBuf::new(Layout::from_size_align(16, 8).unwrap()).unwrap();
        b.clear();
        b.copy_in(&[tag as u8, i as u8]).unwrap();
        c.append(b);
    }
    c
}

#[test]
fn enqueue_without_room_returns_the_chain() {
    for k in 0..5usize {
        let mut q = LoopbackQueue::new(k);
        assert!(q.can_enqueue(k));
        assert!(!q.can_enqueue(k + 1));
        let c = chain(7, k + 1);
        let addr = c.segments[0].as_slice().as_ptr();
        let back = q.enqueue(c).unwrap_err();
        assert_eq!(back.flags, 7);
        assert_eq!(back.segments.len(), k + 1);
        assert_eq!(back.segments[0].as_slice().as_ptr(), addr);
        assert_eq!(back.segments[k].as_slice(), &[7, k as u8]);
        assert!(q.can_enqueue(k));
        assert_eq!(q.flush(), Ok(0));
        assert_eq!(q.can_dequeue(true), 0);
    }
}

#[test]
fn enqueue_takes_one_slot_for_each_fragment() {
    let mut q = LoopbackQueue::new(4);
    assert_eq!(q.slots(), 4);
    assert!(q.enqueue(chain(1, 3)).is_ok());
    assert!(q.can_enqueue(1));
    assert!(!q.can_enqueue(2));
    assert!(q.enqueue(chain(2, 2)).is_err());
    assert!(q.enqueue(chain(3, 1)).is_ok());
    assert!(q.can_enqueue(0));
    assert!(!q.can_enqueue(1));
    assert!(q.enqueue(chain(4, 0)).is_ok());
}

#[test]
fn flush_counts_the_pending_chains() {
    let mut q = LoopbackQueue::new(8);
    assert_eq!(q.flush(), Ok(0));
    q.enqueue(chain(1, 1)).unwrap();
    q.enqueue(chain(2, 2)).unwrap();
    assert_eq!(q.flush(), Ok(2));
    assert_eq!(q.flush(), Ok(0));
    q.enqueue(chain(3, 1)).unwrap();
    assert_eq!(q.flush(), Ok(1));
}

#[test]
fn chains_that_are_not_flushed_do_not_complete() {
    let mut q = LoopbackQueue::new(8);
    q.enqueue(chain(1, 1)).unwrap();
    assert_eq!(q.complete(5), 0);
    assert_eq!(q.can_dequeue(true), 0);
    assert_eq!(q.dequeue().err(), Some(DevQueueError::QueueEmpty));
    assert_eq!(q.flush(), Ok(1));
    assert_eq!(q.can_dequeue(false), 0);
    assert_eq!(q.complete(5), 1);
    assert_eq!(q.can_dequeue(true), 1);
}

#[test]
fn dequeue_is_first_in_first_out() {
    let mut q = LoopbackQueue::new(8);
    let a = chain(0xa, 2);
    let b = chain(0xb, 1);
    let a_addr = a.segments[0].as_slice().as_ptr();
    let b_addr = b.segments[0].as_slice().as_ptr();
    q.enqueue(a).unwrap();
    q.enqueue(b).unwrap();
    assert_eq!(q.flush(), Ok(2));
    assert_eq!(q.complete(2), 2);
    assert_eq!(q.can_dequeue(true), 2);
    let first = q.dequeue().unwrap();
    assert_eq!(first.flags, 0xa);
    assert_eq!(first.segments.len(), 2);
    assert_eq!(first.segments[0].as_slice().as_ptr(), a_addr);
    assert_eq!(first.segments[1].as_slice(), &[0xa, 1]);
    let second = q.dequeue().unwrap();
    assert_eq!(second.flags, 0xb);
    assert_eq!(second.segments[0].as_slice().as_ptr(), b_addr);
    assert_eq!(q.dequeue().err(), Some(DevQueueError::QueueEmpty));
}

#[test]
fn order_holds_across_flushes_and_partial_completion() {
    let mut q = LoopbackQueue::new(16);
    for tag in 1..=3u32 {
        q.enqueue(chain(tag, 1)).unwrap();
    }
    assert_eq!(q.flush(), Ok(3));
    assert_eq!(q.complete(1), 1);
    for tag in 4..=5u32 {
        q.enqueue(chain(tag, 2)).unwrap();
    }
    assert_eq!(q.dequeue().unwrap().flags, 1);
    assert_eq!(q.flush(), Ok(2));
    assert_eq!(q.complete(10), 4);
    assert_eq!(q.can_dequeue(true), 4);
    for tag in 2..=5u32 {
        assert_eq!(q.dequeue().unwrap().flags, tag);
    }
    assert_eq!(q.can_dequeue(true), 0);
}

#[test]
fn can_dequeue_is_never_zero_while_a_chain_waits() {
    let mut q = LoopbackQueue::new(8);
    for tag in 0..4u32 {
        q.enqueue(chain(tag, 1)).unwrap();
    }
    q.flush().unwrap();
    for done in 1..=4usize {
        assert_eq!(q.complete(1), 1);
        assert!(q.can_dequeue(false) >= 1);
        assert_eq!(q.can_dequeue(true), done);
    }
    for left in (0..4usize).rev() {
        q.dequeue().unwrap();
        assert_eq!(q.can_dequeue(true), left);
        assert_eq!(q.can_dequeue(false) == 0, left == 0);
    }
}

#[test]
fn dequeue_gives_the_slots_back() {
    let mut q = LoopbackQueue::new(3);
    q.enqueue(chain(1, 3)).unwrap();
    assert!(!q.can_enqueue(1));
    q.flush().unwrap();
    assert!(!q.can_enqueue(1));
    assert_eq!(q.complete(1), 1);
    assert!(!q.can_enqueue(1));
    q.dequeue().unwrap();
    assert!(q.can_enqueue(3));
    assert!(!q.can_enqueue(4));
}

#[test]
fn complete_moves_at_most_what_is_in_flight() {
    let mut q = LoopbackQueue::new(8);
    assert_eq!(q.complete(0), 0);
    assert_eq!(q.complete(3), 0);
    q.enqueue(chain(1, 1)).unwrap();
    q.enqueue(chain(2, 1)).unwrap();
    q.flush().unwrap();
    assert_eq!(q.complete(0), 0);
    assert_eq!(q.complete(1), 1);
    assert_eq!(q.complete(usize::MAX), 1);
    assert_eq!(q.can_dequeue(true), 2);
}

#[test]
fn queue_error_messages() {
    assert_eq!(DevQueueError::BufferInvalid.message(), "one of the supplied buffers was invalid");
    assert_eq!(
        DevQueueError::OutOfMemory.message(),
        "the operation caused an out-of-memory condition"
    );
    assert_eq!(
        DevQueueError::QueueFull.message(),
        "the queue was full. Can't enqueue more buffers."
    );
    assert_eq!(DevQueueError::QueueEmpty.message(), "the queue was empty. Nothing to dequeue.");
    assert_eq!(DevQueueError::QueueFailure.message(), "Unknown queue failure");
}
