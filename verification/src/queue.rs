//! The frame hand-off queue: an unbounded FIFO channel of captured frames
//! between the capture side and the render side, backed by `flume`. The
//! queue owns both endpoints, so its contents are exactly what was pushed
//! and not yet popped, in push order.

use vstd::prelude::*;

use crate::frame::CapturedFrame;

verus! {

/// An unbounded first-in-first-out queue of captured frames.
#[verifier::external_body]
pub struct FrameQueue {
    sender: flume::Sender<CapturedFrame>,
    receiver: flume::Receiver<CapturedFrame>,
}

/// The frames in the queue, oldest first.
pub uninterp spec fn queue_frames(q: FrameQueue) -> Seq<CapturedFrame>;

impl FrameQueue {
    /// An empty queue. Relies on `flume::unbounded`: a fresh channel holds
    /// no message.
    #[verifier::external_body]
    pub fn new() -> (q: FrameQueue)
        ensures
            queue_frames(q) == Seq::<CapturedFrame>::empty(),
    {
        let (sender, receiver) = flume::unbounded();
        FrameQueue { sender, receiver }
    }

    /// How many frames are queued. Relies on `flume::Receiver::len`.
    #[verifier::external_body]
    pub fn len(&self) -> (n: usize)
        ensures
            n == queue_frames(*self).len(),
    {
        self.receiver.len()
    }

    /// Append one frame. Relies on `flume::Sender::send` on an unbounded
    /// channel: it neither blocks nor drops the message, and queues messages
    /// in send order; it cannot fail here, since the queue owns the receiver.
    #[verifier::external_body]
    pub fn push(&mut self, f: CapturedFrame)
        ensures
            queue_frames(*final(self)) == queue_frames(*old(self)).push(f),
    {
        let _ = self.sender.send(f);
    }

    /// Take the oldest frame, `None` when the queue is empty. Relies on
    /// `flume::Receiver::try_recv`: messages come out in send order; it
    /// cannot see a disconnection, since the queue owns the sender.
    #[verifier::external_body]
    pub fn try_pop(&mut self) -> (r: Option<CapturedFrame>)
        ensures
            queue_frames(*old(self)).len() == 0 ==> r is None && queue_frames(*final(self))
                == queue_frames(*old(self)),
            queue_frames(*old(self)).len() > 0 ==> r == Some(queue_frames(*old(self))[0])
                && queue_frames(*final(self)) == queue_frames(*old(self)).drop_first(),
    {
        self.receiver.try_recv().ok()
    }

    /// Append every frame of `frames`, in order.
    pub fn push_all(&mut self, frames: Vec<CapturedFrame>)
        ensures
            queue_frames(*final(self)) == queue_frames(*old(self)) + frames@,
    {
        let ghost orig = frames@;
        let mut rest = frames;
        while rest.len() > 0
            invariant
                queue_frames(*self) + rest@ == queue_frames(*old(self)) + orig,
            decreases rest@.len(),
        {
            let f = rest.remove(0);
            self.push(f);
            proof {
                assert(queue_frames(*self) + rest@ =~= queue_frames(*old(self)) + orig);
            }
        }
        proof {
            assert(queue_frames(*self) =~= queue_frames(*old(self)) + orig);
        }
    }

    /// One iteration of the capture worker's hand-off: a decoded frame goes
    /// into the queue; a failed capture, `None`, is dropped without a trace
    /// and the queue is left as it was.
    pub fn offer_captured(&mut self, captured: Option<CapturedFrame>)
        ensures
            captured matches Some(f) ==> queue_frames(*final(self)) == queue_frames(
                *old(self),
            ).push(f),
            captured is None ==> queue_frames(*final(self)) == queue_frames(*old(self)),
    {
        match captured {
            Some(f) => self.push(f),
            None => {},
        }
    }

    /// Take every queued frame, oldest first; the queue is left empty. A
    /// consumer draining the queue sees exactly the frames that were pushed,
    /// in push order, none lost and none duplicated.
    pub fn drain(&mut self) -> (out: Vec<CapturedFrame>)
        ensures
            out@ == queue_frames(*old(self)),
            queue_frames(*final(self)).len() == 0,
    {
        let mut out: Vec<CapturedFrame> = Vec::new();
        while self.len() > 0
            invariant
                out@ + queue_frames(*self) == queue_frames(*old(self)),
            decreases queue_frames(*self).len(),
        {
            match self.try_pop() {
                Some(f) => {
                    out.push(f);
                    proof {
                        assert(out@ + queue_frames(*self) =~= queue_frames(*old(self)));
                    }
                },
                None => {},
            }
        }
        proof {
            assert(out@ =~= queue_frames(*old(self)));
        }
        out
    }
}

} // verus!
