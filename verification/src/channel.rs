//! The queue between the bus and a subscriber: a bounded channel of tokio.
//!
//! A [`Queue`] owns both ends of its channel and shares neither, so what is in
//! the channel is known at every call.

use tokio::sync::mpsc::{Receiver, Sender};
use vstd::prelude::*;

use crate::frame::CanFrame;

verus! {

/// tokio's `mpsc::Sender`.
#[verifier::external_type_specification]
#[verifier::external_body]
#[verifier::reject_recursive_types(T)]
pub struct ExSender<T>(Sender<T>);

/// tokio's `mpsc::Receiver`.
#[verifier::external_type_specification]
#[verifier::external_body]
#[verifier::reject_recursive_types(T)]
pub struct ExReceiver<T>(Receiver<T>);

/// A queue of frames, oldest first.
pub struct Queue {
    tx: Sender<CanFrame>,
    rx: Receiver<CanFrame>,
    held: Ghost<Seq<CanFrame>>,
    depth: Ghost<nat>,
}

impl View for Queue {
    type V = Seq<CanFrame>;

    /// The frames in the queue, oldest first.
    closed spec fn view(&self) -> Seq<CanFrame> {
        self.held@
    }
}

impl Queue {
    /// How many frames the queue holds at most.
    pub closed spec fn depth(&self) -> nat {
        self.depth@
    }

    /// `tokio::sync::mpsc::channel`: the two ends of a new channel, with nothing
    /// in it and room for `depth` frames. The call panics for a depth of 0, and
    /// for one above the limit of tokio's semaphore, `usize::MAX >> 3`.
    #[verifier::external_body]
    pub(crate) fn new(depth: usize) -> (queue: Self)
        requires
            0 < depth <= usize::MAX / 8,
        ensures
            queue@ == Seq::<CanFrame>::empty(),
            queue.depth() == depth,
    {
        let (tx, rx) = tokio::sync::mpsc::channel(depth);
        Queue { tx, rx, held: Ghost(Seq::empty()), depth: Ghost(depth as nat) }
    }

    /// tokio's `mpsc::Sender::try_send`: puts a frame at the end of the channel
    /// if there is room for it, and leaves the channel as it is if there is not.
    /// The receiving end is here, so the channel is never closed.
    #[verifier::external_body]
    pub(crate) fn try_send(&mut self, frame: CanFrame) -> (queued: bool)
        ensures
            queued == (old(self)@.len() < old(self).depth()),
            final(self)@ == if queued {
                old(self)@.push(frame)
            } else {
                old(self)@
            },
            final(self).depth() == old(self).depth(),
    {
        self.tx.try_send(frame).is_ok()
    }

    /// tokio's `mpsc::Receiver::try_recv`: takes the oldest frame off the
    /// channel, if there is one, and makes room for another. The sending end is
    /// here, so the channel is never disconnected.
    #[verifier::external_body]
    pub(crate) fn try_recv(&mut self) -> (taken: Option<CanFrame>)
        ensures
            taken == if old(self)@.len() > 0 {
                Some(old(self)@[0])
            } else {
                None
            },
            final(self)@ == if old(self)@.len() > 0 {
                old(self)@.drop_first()
            } else {
                old(self)@
            },
            final(self).depth() == old(self).depth(),
    {
        self.rx.try_recv().ok()
    }
}

} // verus!
