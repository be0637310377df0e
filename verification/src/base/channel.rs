//! A flow's output: the sending half of a broadcast channel together with the
//! receiver that was opened with it.
use crate::broadcast::{
    delivered, handed_over, open_channel, refused, same_channel, send_value, valid_capacity, ReceiveHandle, SendHandle,
};
use crate::base::message::Message;
use std::fmt::Debug;
use tokio::sync::broadcast::{Receiver, Sender};
use vstd::prelude::*;

verus! {

/// A broadcast channel of messages: a sender and one receiver of it.
#[verifier::reject_recursive_types(T)]
pub struct Channel<T: Clone + Debug> {
    broadcast_sender: SendHandle<Message<T>>,
    broadcast_receiver: ReceiveHandle<Message<T>>,
}

impl<T: Clone + Debug> Channel<T> {
    /// The sending handle with its record of what was sent through it.
    pub closed spec fn outlet(&self) -> SendHandle<Message<T>> {
        self.broadcast_sender
    }

    /// The receiving handle with its channel identity.
    pub closed spec fn inlet(&self) -> ReceiveHandle<Message<T>> {
        self.broadcast_receiver
    }

    /// The sending handle.
    pub open spec fn sender_spec(&self) -> Sender<Message<T>> {
        self.outlet().handle()
    }

    /// The receiving handle.
    pub open spec fn receiver_spec(&self) -> Receiver<Message<T>> {
        self.inlet().receiver_spec()
    }

    /// The messages sent through this channel value (and accepted), oldest
    /// first.
    pub open spec fn sent(&self) -> Seq<Message<T>> {
        self.outlet().sent()
    }

    /// The capacity the channel was opened with, when it was opened here.
    pub open spec fn capacity(&self) -> Option<usize> {
        self.outlet().capacity()
    }

    /// The receiver is known to belong to the sender's channel; while the
    /// channel value holds it, that channel has a live receiver.
    pub open spec fn paired(&self) -> bool {
        same_channel(self.outlet().channel(), self.inlet().channel())
    }

    /// Pairs a sender with a receiver; nothing is sent or received.
    pub fn new(broadcast_sender: Sender<Message<T>>, broadcast_receiver: Receiver<Message<T>>) -> (c:
        Self)
        ensures
            c.sender_spec() == broadcast_sender,
            c.receiver_spec() == broadcast_receiver,
            c.outlet().offered() == Seq::<Message<T>>::empty(),
            c.sent() == Seq::<Message<T>>::empty(),
            c.capacity() is None,
    {
        Channel {
            broadcast_receiver: ReceiveHandle::from_receiver(broadcast_receiver),
            broadcast_sender: SendHandle::from_sender(broadcast_sender),
        }
    }

    /// Opens a fresh broadcast channel that buffers up to `capacity` messages,
    /// holding its sender and a receiver of it.
    pub fn with_capacity(capacity: usize) -> (c: Self)
        requires
            valid_capacity(capacity),
        ensures
            c.capacity() == Some(capacity),
            c.paired(),
            c.outlet().offered() == Seq::<Message<T>>::empty(),
            c.sent() == Seq::<Message<T>>::empty(),
    {
        let (broadcast_sender, broadcast_receiver) = open_channel(capacity);
        Channel { broadcast_sender, broadcast_receiver }
    }

    /// Sends `message` to every receiver of the channel. On success returns
    /// how many receivers there were; when the channel has none, hands the
    /// message back untouched. A channel that holds a receiver of its own
    /// channel always has one, so there the send succeeds.
    pub fn send(&mut self, message: Message<T>) -> (r: Result<usize, Message<T>>)
        ensures
            final(self).outlet().handle() == old(self).outlet().handle(),
            final(self).outlet().channel() == old(self).outlet().channel(),
            final(self).inlet() == old(self).inlet(),
            final(self).capacity() == old(self).capacity(),
            handed_over(old(self).outlet(), final(self).outlet(), message, r is Ok),
            old(self).paired() ==> r is Ok,
            match r {
                Ok(n) => n >= 1 && delivered(old(self).outlet(), final(self).outlet(), message, n),
                Err(m) => m == message && refused(old(self).outlet(), final(self).outlet(), message),
            },
    {
        send_value(&mut self.broadcast_sender, Some(&self.broadcast_receiver), message)
    }

    /// Another sending handle of this channel, with nothing sent through it.
    pub fn sender(&self) -> (s: SendHandle<Message<T>>)
        ensures
            s.handle() == self.sender_spec(),
            s.capacity() == self.capacity(),
            s.channel() == self.outlet().channel(),
            s.offered() == Seq::<Message<T>>::empty(),
            s.sent() == Seq::<Message<T>>::empty(),
    {
        self.broadcast_sender.clone_handle()
    }

    /// Lends out the receiver, e.g. to await the next message on it. The
    /// borrower may put another receiver in its place, so afterwards the
    /// receiver is no longer known to belong to the sender's channel.
    pub fn broadcast_receiver_mut(&mut self) -> (r: &mut Receiver<Message<T>>)
        ensures
            *r == old(self).receiver_spec(),
            final(self).receiver_spec() == *final(r),
            final(self).inlet().channel() is None,
            final(self).outlet() == old(self).outlet(),
    {
        self.broadcast_receiver.receiver_mut()
    }
}

} // verus!
