use vstd::prelude::*;

use crate::frame::Frame;

verus! {

/// What the queue holds, oldest first.
pub uninterp spec fn queue_frames(q: FrameQueue) -> Seq<Frame>;

/// The fixed capacity the queue was created with.
pub uninterp spec fn queue_capacity(q: FrameQueue) -> nat;

/// A bounded FIFO of audio frames, backed by a lock-free single-producer,
/// single-consumer ring buffer.
///
/// Both ends are held together here, so one contents sequence describes the
/// queue exactly and every operation below is deterministic. Splitting the
/// two ends across threads — the concurrent deployment of the same ring
/// buffer — is the business of the unverified shell around this library,
/// which must then treat every length observation as momentary.
#[verifier::external_body]
pub struct FrameQueue {
    producer: rtrb::Producer<Frame>,
    consumer: rtrb::Consumer<Frame>,
}

impl FrameQueue {
    /// Relies on rtrb::RingBuffer::new: a fresh queue with the given fixed
    /// capacity, holding nothing.
    #[verifier::external_body]
    pub(crate) fn new(capacity: usize) -> (q: FrameQueue)
        ensures
            queue_frames(q) == Seq::<Frame>::empty(),
            queue_capacity(q) == capacity as nat,
    {
        let (producer, consumer) = rtrb::RingBuffer::new(capacity);
        FrameQueue { producer, consumer }
    }

    /// Relies on rtrb::Producer::push: appends the value at the tail when a
    /// slot is free; when the queue is full it returns the value back as an
    /// error and changes nothing.
    #[verifier::external_body]
    pub(crate) fn push(&mut self, f: Frame) -> (ok: bool)
        ensures
            queue_capacity(*final(self)) == queue_capacity(*old(self)),
            ok == (queue_frames(*old(self)).len() < queue_capacity(*old(self))),
            ok ==> queue_frames(*final(self)) == queue_frames(*old(self)).push(f),
            !ok ==> queue_frames(*final(self)) == queue_frames(*old(self)),
    {
        self.producer.push(f).is_ok()
    }

    /// Relies on rtrb::Consumer::pop: removes and returns the oldest item,
    /// or reports the queue empty and changes nothing.
    #[verifier::external_body]
    pub(crate) fn pop(&mut self) -> (r: Option<Frame>)
        ensures
            queue_capacity(*final(self)) == queue_capacity(*old(self)),
            queue_frames(*old(self)).len() == 0 ==> r is None
                && queue_frames(*final(self)) == queue_frames(*old(self)),
            queue_frames(*old(self)).len() > 0 ==> r == Some(queue_frames(*old(self))[0])
                && queue_frames(*final(self)) == queue_frames(*old(self)).subrange(
                1,
                queue_frames(*old(self)).len() as int,
            ),
    {
        self.consumer.pop().ok()
    }

}

} // verus!
