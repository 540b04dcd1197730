//! The frame hand-off queue: an unbounded single-producer/single-consumer
//! channel of raw RGB frame buffers, backed by the `flume` crate.
//!
//! The queue's contents are modelled as a sequence of byte sequences, oldest
//! first. The three operations that touch the channel are trusted wrappers
//! around `flume`, private to this module; everything built on them, the
//! latest-wins drain above all, is verified.

use vstd::prelude::*;

verus! {

#[verifier::external_type_specification]
#[verifier::external_body]
#[verifier::reject_recursive_types(T)]
pub struct ExSender<T>(flume::Sender<T>);

#[verifier::external_type_specification]
#[verifier::external_body]
#[verifier::reject_recursive_types(T)]
pub struct ExReceiver<T>(flume::Receiver<T>);

/// The frames sitting in the queue behind this receiver, oldest first.
pub uninterp spec fn queued(r: flume::Receiver<Vec<u8>>) -> Seq<Seq<u8>>;

/// Both ends of one unbounded frame queue. The producer side is fed by the
/// capture callback; the consumer side is drained by the application thread.
///
/// The fields are private and only [`FrameChannel::new`] builds a value, so
/// the two ends are always the two ends of the same channel: the contracts
/// of the send and drain wrappers below lean on that pairing.
pub struct FrameChannel {
    sender: flume::Sender<Vec<u8>>,
    receiver: flume::Receiver<Vec<u8>>,
}

impl FrameChannel {
    /// The frames currently buffered, oldest first.
    pub closed spec fn frames(self) -> Seq<Seq<u8>> {
        queued(self.receiver)
    }

    /// Relies on flume::unbounded: a fresh channel holds no messages.
    #[verifier::external_body]
    fn open_ends() -> (c: FrameChannel)
        ensures
            queued(c.receiver) == Seq::<Seq<u8>>::empty(),
    {
        let (sender, receiver) = flume::unbounded();
        FrameChannel { sender, receiver }
    }

    /// A fresh, empty queue.
    pub fn new() -> (c: FrameChannel)
        ensures
            c.frames() == Seq::<Seq<u8>>::empty(),
    {
        FrameChannel::open_ends()
    }

    /// Relies on flume::Sender::send: on an unbounded channel it never
    /// blocks, and it appends the message to the queue its receiver reads —
    /// the same queue, because every `FrameChannel` pairs the two ends of
    /// one channel. The send fails only when every receiver is gone, and
    /// this value owns its receiver, so that cannot happen while it exists.
    #[verifier::external_body]
    fn send_frame(&mut self, frame: Vec<u8>)
        ensures
            queued(final(self).receiver) == queued(old(self).receiver).push(frame@),
    {
        let _ = self.sender.send(frame);
    }

    /// Appends one frame to the queue. Never blocks and never fails.
    pub fn push(&mut self, frame: Vec<u8>)
        ensures
            final(self).frames() == old(self).frames().push(frame@),
    {
        self.send_frame(frame);
    }

    /// Relies on flume::Receiver::drain: it takes every message queued at
    /// the moment of the call, in the order they were sent, and leaves the
    /// queue empty.
    #[verifier::external_body]
    fn drain_all(&mut self) -> (taken: Vec<Vec<u8>>)
        ensures
            taken@.map_values(|f: Vec<u8>| f@) == queued(old(self).receiver),
            queued(final(self).receiver) == Seq::<Seq<u8>>::empty(),
    {
        self.receiver.drain().collect()
    }

    /// Latest-wins drain: empty the queue and keep only the newest frame.
    /// Returns `None` when nothing was queued.
    pub fn take_latest(&mut self) -> (r: Option<Vec<u8>>)
        ensures
            final(self).frames() == Seq::<Seq<u8>>::empty(),
            old(self).frames().len() == 0 ==> r is None,
            old(self).frames().len() > 0 ==> (r matches Some(f) && f@ == old(self).frames().last()),
    {
        let mut all = self.drain_all();
        if all.len() == 0 {
            None
        } else {
            let last = all.remove(all.len() - 1);
            Some(last)
        }
    }
}

} // verus!
