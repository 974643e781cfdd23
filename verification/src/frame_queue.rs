//! The frame queue: a bounded first-in first-out buffer of decoded frames,
//! filled by the video decode producer and drained by the display consumer.
//!
//! The queue itself never blocks. A producer that finds it full gets its frame
//! back and tries again later; callers that share a queue between threads put
//! it behind a lock and hold the lock for one operation at a time.

use vstd::prelude::*;

verus! {

/// The number of frames the video decode producer may run ahead of the display.
pub const FRAME_QUEUE_CAPACITY: usize = 70;

/// What a queue holds after an attempt to append `frame`: the frame goes to
/// the tail while there is room, and a full queue stays as it is.
pub open spec fn after_push<T>(frames: Seq<T>, capacity: nat, frame: T) -> Seq<T> {
    if frames.len() < capacity {
        frames.push(frame)
    } else {
        frames
    }
}

/// What a queue holds after an attempt to remove its head.
pub open spec fn after_pop<T>(frames: Seq<T>) -> Seq<T> {
    if frames.len() > 0 {
        frames.drop_first()
    } else {
        frames
    }
}

/// A bounded queue of frames in arrival order. Its view is the sequence of
/// frames it holds, oldest first.
pub struct FrameQueue<T> {
    frames: Vec<T>,
    capacity: usize,
}

impl<T> View for FrameQueue<T> {
    type V = Seq<T>;

    closed spec fn view(&self) -> Seq<T> {
        self.frames@
    }
}

impl<T> FrameQueue<T> {
    /// The queue's invariant: it never holds more frames than its capacity.
    /// Every constructor establishes it and every method keeps it.
    pub open spec fn wf(&self) -> bool {
        self@.len() <= self.capacity_spec()
    }

    /// The largest number of frames the queue holds at once.
    pub closed spec fn capacity_spec(&self) -> usize {
        self.capacity
    }

    /// An empty queue that holds at most `capacity` frames.
    pub fn new(capacity: usize) -> (queue: FrameQueue<T>)
        ensures
            queue.wf(),
            queue@ == Seq::<T>::empty(),
            queue.capacity_spec() == capacity,
    {
        FrameQueue { frames: Vec::new(), capacity }
    }

    /// The largest number of frames the queue holds at once.
    #[verifier::when_used_as_spec(capacity_spec)]
    pub fn capacity(&self) -> (capacity: usize)
        ensures
            capacity == self.capacity_spec(),
    {
        self.capacity
    }

    /// The number of frames waiting in the queue, never more than the capacity.
    pub fn len(&self) -> (len: usize)
        requires
            self.wf(),
        ensures
            len == self@.len(),
    {
        self.frames.len()
    }

    /// Whether no frame is waiting.
    pub fn is_empty(&self) -> (empty: bool)
        ensures
            empty == (self@.len() == 0),
    {
        self.frames.len() == 0
    }

    /// Whether the queue is at capacity, so that a push would be turned away.
    pub fn is_full(&self) -> (full: bool)
        requires
            self.wf(),
        ensures
            full == (self@.len() >= self.capacity_spec()),
            full == (self@.len() == self.capacity_spec()),
    {
        self.frames.len() >= self.capacity
    }

    /// Appends `frame` to the tail if the queue has room. A full queue is left
    /// untouched and hands the frame back, so that the producer can retry
    /// without losing it.
    pub fn try_push(&mut self, frame: T) -> (turned_away: Result<(), T>)
        requires
            old(self).wf(),
        ensures
            final(self).wf(),
            final(self).capacity_spec() == old(self).capacity_spec(),
            final(self)@ == after_push(old(self)@, old(self).capacity_spec() as nat, frame),
            turned_away == if old(self)@.len() < old(self).capacity_spec() {
                Ok::<(), T>(())
            } else {
                Err::<(), T>(frame)
            },
    {
        if self.frames.len() < self.capacity {
            self.frames.push(frame);
            Ok(())
        } else {
            Err(frame)
        }
    }

    /// Removes and returns the oldest frame, or returns `None` and leaves the
    /// queue as it is when no frame is waiting.
    pub fn pop_front(&mut self) -> (head: Option<T>)
        requires
            old(self).wf(),
        ensures
            final(self).wf(),
            final(self).capacity_spec() == old(self).capacity_spec(),
            final(self)@ == after_pop(old(self)@),
            head == if old(self)@.len() > 0 {
                Some(old(self)@[0])
            } else {
                None
            },
    {
        if self.frames.len() > 0 {
            let head = self.frames.remove(0);
            assert(self.frames@ =~= old(self).frames@.drop_first());
            Some(head)
        } else {
            None
        }
    }
}

/// One operation on a frame queue, as a producer or a consumer issues it.
pub enum QueueOp<T> {
    /// The producer offers a frame.
    Push(T),
    /// The consumer asks for the oldest frame.
    Pop,
}

/// The contents of a queue of the given capacity that started empty and saw
/// the operations `ops` in order.
pub open spec fn queue_after<T>(ops: Seq<QueueOp<T>>, capacity: nat) -> Seq<T>
    decreases ops.len(),
{
    if ops.len() == 0 {
        Seq::empty()
    } else {
        let before = queue_after(ops.drop_last(), capacity);
        match ops.last() {
            QueueOp::Push(frame) => after_push(before, capacity, frame),
            QueueOp::Pop => after_pop(before),
        }
    }
}

/// The frames that the queue took in during `ops`, in the order of their
/// pushes. A frame offered to a full queue is not among them.
pub open spec fn frames_accepted<T>(ops: Seq<QueueOp<T>>, capacity: nat) -> Seq<T>
    decreases ops.len(),
{
    if ops.len() == 0 {
        Seq::empty()
    } else {
        let earlier = frames_accepted(ops.drop_last(), capacity);
        match ops.last() {
            QueueOp::Push(frame) => if queue_after(ops.drop_last(), capacity).len() < capacity {
                earlier.push(frame)
            } else {
                earlier
            },
            QueueOp::Pop => earlier,
        }
    }
}

/// The frames that the pops of `ops` returned, in the order of the pops.
pub open spec fn frames_popped<T>(ops: Seq<QueueOp<T>>, capacity: nat) -> Seq<T>
    decreases ops.len(),
{
    if ops.len() == 0 {
        Seq::empty()
    } else {
        let earlier = frames_popped(ops.drop_last(), capacity);
        let before = queue_after(ops.drop_last(), capacity);
        match ops.last() {
            QueueOp::Push(_) => earlier,
            QueueOp::Pop => if before.len() > 0 {
                earlier.push(before[0])
            } else {
                earlier
            },
        }
    }
}

/// Whatever pushes and pops a queue sees, in whatever order, it never holds
/// more frames than its capacity, and the frames come out in the order in
/// which they went in: the frames popped so far, followed by the frames still
/// waiting, are exactly the frames accepted so far.
pub proof fn lemma_bounded_fifo<T>(ops: Seq<QueueOp<T>>, capacity: nat)
    ensures
        queue_after(ops, capacity).len() <= capacity,
        frames_accepted(ops, capacity) == frames_popped(ops, capacity) + queue_after(
            ops,
            capacity,
        ),
    decreases ops.len(),
{
    if ops.len() > 0 {
        let earlier = ops.drop_last();
        lemma_bounded_fifo(earlier, capacity);
        let before = queue_after(earlier, capacity);
        let popped = frames_popped(earlier, capacity);
        match ops.last() {
            QueueOp::Push(frame) => {
                if before.len() < capacity {
                    assert((popped + before).push(frame) =~= popped + before.push(frame));
                }
            },
            QueueOp::Pop => {
                if before.len() > 0 {
                    assert(popped + before =~= popped.push(before[0]) + before.drop_first());
                }
            },
        }
    }
}

} // verus!
