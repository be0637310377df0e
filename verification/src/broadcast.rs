//! tokio's broadcast channel, as the library uses it: the two handle types,
//! and the calls that open a channel, send on it and subscribe to it.
//!
//! A channel's buffer is shared by every handle of it, so what a receiver
//! will read depends on calls made through other handles; nothing here names
//! it. What the library itself does with a sending handle is recorded on the
//! handle: the values it handed to tokio's `send`, and the capacity the
//! channel was opened with.
use tokio::sync::broadcast::{Receiver, Sender};
use vstd::prelude::*;

verus! {

#[verifier::external_type_specification]
#[verifier::external_body]
#[verifier::reject_recursive_types(T)]
pub struct ExSender<T>(Sender<T>);

#[verifier::external_type_specification]
#[verifier::external_body]
#[verifier::reject_recursive_types(T)]
pub struct ExReceiver<T>(Receiver<T>);

/// The capacities that tokio accepts for a broadcast channel: it panics on
/// zero and on anything above `usize::MAX / 2`.
pub open spec fn valid_capacity(capacity: usize) -> bool {
    0 < capacity && capacity <= usize::MAX / 2
}

/// Tells whether a broadcast channel can be opened with `capacity`.
pub fn is_valid_capacity(capacity: usize) -> (b: bool)
    ensures
        b == valid_capacity(capacity),
{
    0 < capacity && capacity <= usize::MAX / 2
}

/// Whether two handles are known to belong to one channel: both carry the
/// identity of a channel opened here, and it is the same one.
pub open spec fn same_channel(a: Option<int>, b: Option<int>) -> bool {
    a is Some && a == b
}

/// A sending handle of a broadcast channel, with a record of what was sent
/// through it: the values handed to tokio's `send`, the values tokio
/// accepted, each in order, the capacity the channel was opened with, and
/// an identity of the channel, when it was opened here.
#[verifier::reject_recursive_types(T)]
pub struct SendHandle<T> {
    sender: Sender<T>,
    offered: Ghost<Seq<T>>,
    sent: Ghost<Seq<T>>,
    reached: Ghost<Seq<usize>>,
    capacity: Ghost<Option<usize>>,
    channel: Ghost<Option<int>>,
}

/// A receiving handle of a broadcast channel, with the identity of its
/// channel when that is known here.
#[verifier::reject_recursive_types(T)]
pub struct ReceiveHandle<T> {
    receiver: Receiver<T>,
    channel: Ghost<Option<int>>,
}

/// The handle is the same one, of the same channel, before and after.
pub open spec fn same_handle<T>(before: SendHandle<T>, after: SendHandle<T>) -> bool {
    &&& after.handle() == before.handle()
    &&& after.capacity() == before.capacity()
    &&& after.channel() == before.channel()
}

/// Nothing was handed to `send` between `before` and `after`.
pub open spec fn untouched<T>(before: SendHandle<T>, after: SendHandle<T>) -> bool {
    &&& after.offered() == before.offered()
    &&& after.sent() == before.sent()
    &&& after.reached() == before.reached()
}

/// Between `before` and `after`, `value` went out: it was handed to `send`
/// once, tokio accepted it and reported reaching `n` receivers (at least
/// one).
pub open spec fn delivered<T>(before: SendHandle<T>, after: SendHandle<T>, value: T, n: usize) -> bool {
    &&& n >= 1
    &&& handed_over(before, after, value, true)
    &&& after.reached() == before.reached().push(n)
}

/// Between `before` and `after`, `value` was handed to `send` once and tokio
/// gave it back, for want of a receiver.
pub open spec fn refused<T>(before: SendHandle<T>, after: SendHandle<T>, value: T) -> bool {
    &&& handed_over(before, after, value, false)
    &&& after.reached() == before.reached()
}

/// Between `before` and `after`, `value` was handed to `send` once; tokio
/// either accepted it (`delivered`), and it was recorded as sent, or gave it
/// back, and nothing more was recorded as sent.
pub open spec fn handed_over<T>(before: SendHandle<T>, after: SendHandle<T>, value: T, delivered: bool) -> bool {
    &&& after.offered() == before.offered().push(value)
    &&& if delivered {
        after.sent() == before.sent().push(value)
    } else {
        after.sent() == before.sent()
    }
}

impl<T> SendHandle<T> {
    /// The tokio handle.
    pub closed spec fn handle(&self) -> Sender<T> {
        self.sender
    }

    /// The values handed to tokio's `send` through this handle, oldest
    /// first, whether or not tokio accepted them.
    pub closed spec fn offered(&self) -> Seq<T> {
        self.offered@
    }

    /// The values sent through this handle (and accepted by tokio), oldest
    /// first.
    pub closed spec fn sent(&self) -> Seq<T> {
        self.sent@
    }

    /// For each value in `sent`, the number of receivers tokio's `send`
    /// reported reaching with it.
    pub closed spec fn reached(&self) -> Seq<usize> {
        self.reached@
    }

    /// The capacity the channel was opened with, when it was opened by this
    /// library; `None` for a handle obtained elsewhere.
    pub closed spec fn capacity(&self) -> Option<usize> {
        self.capacity@
    }

    /// The identity of the channel, when it was opened by this library;
    /// `None` for a handle obtained elsewhere.
    pub closed spec fn channel(&self) -> Option<int> {
        self.channel@
    }

    /// Wraps a sending handle obtained elsewhere. Nothing has been sent
    /// through the wrapper yet, and its channel is not known here.
    pub fn from_sender(sender: Sender<T>) -> (r: Self)
        ensures
            r.handle() == sender,
            r.offered() == Seq::<T>::empty(),
            r.sent() == Seq::<T>::empty(),
            r.reached() == Seq::<usize>::empty(),
            r.capacity() is None,
            r.channel() is None,
    {
        SendHandle {
            sender,
            offered: Ghost(Seq::empty()),
            sent: Ghost(Seq::empty()),
            reached: Ghost(Seq::empty()),
            capacity: Ghost(None),
            channel: Ghost(None),
        }
    }

    /// Another handle of the same channel; nothing has been sent through it
    /// yet.
    pub fn clone_handle(&self) -> (r: Self)
        ensures
            r.handle() == self.handle(),
            r.capacity() == self.capacity(),
            r.channel() == self.channel(),
            r.offered() == Seq::<T>::empty(),
            r.sent() == Seq::<T>::empty(),
            r.reached() == Seq::<usize>::empty(),
    {
        clone_sender(self)
    }

    /// A new receiver of the channel, which reads the values sent after
    /// this call.
    pub fn subscribe(&self) -> (r: ReceiveHandle<T>)
        ensures
            r.channel() == self.channel(),
    {
        subscribe_receiver(self)
    }
}

impl<T> ReceiveHandle<T> {
    /// The tokio handle.
    pub closed spec fn receiver_spec(&self) -> Receiver<T> {
        self.receiver
    }

    /// The identity of the channel, when it is known here.
    pub closed spec fn channel(&self) -> Option<int> {
        self.channel@
    }

    /// Wraps a receiving handle obtained elsewhere; its channel is not known
    /// here.
    pub fn from_receiver(receiver: Receiver<T>) -> (r: Self)
        ensures
            r.receiver_spec() == receiver,
            r.channel() is None,
    {
        ReceiveHandle { receiver, channel: Ghost(None) }
    }

    /// Unwraps the tokio handle.
    pub fn into_receiver(self) -> (r: Receiver<T>)
        ensures
            r == self.receiver_spec(),
    {
        self.receiver
    }

    /// Borrows the tokio handle.
    pub fn receiver(&self) -> (r: &Receiver<T>)
        ensures
            *r == self.receiver_spec(),
    {
        &self.receiver
    }

    /// Lends out the tokio handle, e.g. to await the next value on it. The
    /// borrower may put another receiver in its place, so the channel is no
    /// longer known afterwards.
    pub fn receiver_mut(&mut self) -> (r: &mut Receiver<T>)
        ensures
            *r == old(self).receiver_spec(),
            final(self).receiver_spec() == *final(r),
            final(self).channel() is None,
    {
        self.channel = Ghost(None);
        &mut self.receiver
    }
}

/// Calls `tokio::sync::broadcast::channel`, which returns the sending half
/// and one receiving half of a fresh channel opened with `capacity`; in
/// tokio's source the receiver is built from a clone of the sender's shared
/// state, so both halves belong to the new channel and carry its identity.
/// Its only panics are on the capacities that `valid_capacity` excludes (and
/// on allocation failure). The sending half is returned with an empty record
/// and `capacity` as its channel's capacity.
#[verifier::external_body]
pub(crate) fn open_channel<T: Clone>(capacity: usize) -> (r: (SendHandle<T>, ReceiveHandle<T>))
    requires
        valid_capacity(capacity),
    ensures
        r.0.offered() == Seq::<T>::empty(),
        r.0.sent() == Seq::<T>::empty(),
        r.0.reached() == Seq::<usize>::empty(),
        r.0.capacity() == Some(capacity),
        r.0.channel() is Some,
        r.1.channel() == r.0.channel(),
{
    let (sender, receiver) = tokio::sync::broadcast::channel(capacity);
    let id = Ghost(Some(arbitrary()));
    let handle = SendHandle {
        sender,
        offered: Ghost(Seq::empty()),
        sent: Ghost(Seq::empty()),
        reached: Ghost(Seq::empty()),
        capacity: Ghost(Some(capacity)),
        channel: id,
    };
    (handle, ReceiveHandle { receiver, channel: id })
}

/// Calls `Sender::send` on the handle. tokio's source returns
/// `Err(SendError(value))`, handing the value back, when the channel has no
/// receiver, and otherwise stores the value for every receiver and returns
/// `Ok` with the number of receivers, which is then at least one. A live
/// receiver of the channel (`held`, borrowed for the call) counts as one, so
/// with it the send succeeds. The wrapper unpacks the error into the value it
/// carries. The value is recorded as handed over either way, and on `Ok`
/// only as sent, together with the receiver count tokio returned. Without such a receiver, which of the two happens depends on
/// the other handles of the channel, and is not stated.
#[verifier::external_body]
pub(crate) fn send_value<T>(handle: &mut SendHandle<T>, held: Option<&ReceiveHandle<T>>, value: T) -> (r:
    Result<usize, T>)
    ensures
        final(handle).handle() == old(handle).handle(),
        final(handle).capacity() == old(handle).capacity(),
        final(handle).channel() == old(handle).channel(),
        handed_over(*old(handle), *final(handle), value, r is Ok),
        (held matches Some(h) && same_channel(old(handle).channel(), h.channel())) ==> r is Ok,
        match r {
            Ok(n) => n >= 1 && delivered(*old(handle), *final(handle), value, n),
            Err(v) => v == value && refused(*old(handle), *final(handle), value),
        },
{
    match handle.sender.send(value) {
        Ok(n) => Ok(n),
        Err(e) => Err(e.0),
    }
}

/// Calls `Sender::subscribe`, which returns a receiver of the values sent
/// after the call; in tokio's source it shares the sender's channel state,
/// so it carries the handle's channel identity. tokio panics if the channel
/// already has `usize::MAX >> 2` receivers; that count lives in the shared
/// channel and cannot be stated over the argument.
#[verifier::external_body]
pub(crate) fn subscribe_receiver<T>(handle: &SendHandle<T>) -> (r: ReceiveHandle<T>)
    ensures
        r.channel() == handle.channel(),
{
    ReceiveHandle { receiver: handle.sender.subscribe(), channel: handle.channel }
}

/// Calls `Sender::clone`. In tokio's source a `Sender` is one `Arc` of the
/// shared channel state, and the clone is a `Sender` holding a clone of that
/// `Arc` (a pointer to the same allocation; the sender count it bumps lives
/// in the shared state, not in the handle), so the clone equals the handle
/// as a value. The new handle belongs to the same channel, so it keeps the
/// channel's identity and capacity; nothing has been sent through it.
#[verifier::external_body]
pub(crate) fn clone_sender<T>(handle: &SendHandle<T>) -> (r: SendHandle<T>)
    ensures
        r.handle() == handle.handle(),
        r.capacity() == handle.capacity(),
        r.channel() == handle.channel(),
        r.offered() == Seq::<T>::empty(),
        r.sent() == Seq::<T>::empty(),
        r.reached() == Seq::<usize>::empty(),
{
    let sender = handle.sender.clone();
    let (empty, none) = (Ghost(Seq::empty()), Ghost(Seq::empty()));
    SendHandle { sender, offered: empty, sent: empty, reached: none, capacity: handle.capacity, channel: handle.channel }
}

/// The receiver counts of the successful results in a run, in order.
pub open spec fn ok_counts<A>(results: Seq<Result<usize, A>>) -> Seq<usize>
    decreases results.len(),
{
    if results.len() == 0 {
        Seq::empty()
    } else {
        let earlier = ok_counts(results.drop_last());
        match results.last() {
            Ok(n) => earlier.push(n),
            Err(_) => earlier,
        }
    }
}

/// The values of a run whose send succeeded, in order.
pub open spec fn accepted_values<T, A>(values: Seq<T>, results: Seq<Result<usize, A>>) -> Seq<T>
    decreases values.len(),
{
    if values.len() == 0 || results.len() != values.len() {
        Seq::empty()
    } else {
        let earlier = accepted_values(values.drop_last(), results.drop_last());
        match results.last() {
            Ok(_) => earlier.push(values.last()),
            Err(_) => earlier,
        }
    }
}

/// Over a run of sends through one handle (the `i`-th handing `values[i]`
/// over and coming to `results[i]`, as `send_value` states it), every value
/// is handed over once, in order; the values recorded as sent are exactly
/// those whose send succeeded; and the receiver counts recorded are exactly
/// the counts the successful sends returned, in order.
pub proof fn law_send_run<T>(values: Seq<T>, results: Seq<Result<usize, T>>, handles: Seq<SendHandle<T>>)
    requires
        results.len() == values.len(),
        handles.len() == values.len() + 1,
        forall|i: int|
            0 <= i < values.len() ==> match #[trigger] results[i] {
                Ok(n) => delivered(handles[i], handles[i + 1], values[i], n),
                Err(_) => refused(handles[i], handles[i + 1], values[i]),
            },
    ensures
        handles.last().offered() == handles[0].offered() + values,
        handles.last().sent() == handles[0].sent() + accepted_values(values, results),
        handles.last().reached() == handles[0].reached() + ok_counts(results),
    decreases values.len(),
{
    let h0 = handles[0];
    if values.len() == 0 {
        assert(h0.offered() + values =~= h0.offered());
        assert(h0.sent() + Seq::<T>::empty() =~= h0.sent());
        assert(h0.reached() + Seq::<usize>::empty() =~= h0.reached());
    } else {
        let k = values.len() - 1;
        let vs = values.drop_last();
        let rs = results.drop_last();
        let hs = handles.drop_last();
        assert forall|i: int| 0 <= i < vs.len() implies match #[trigger] rs[i] {
            Ok(n) => delivered(hs[i], hs[i + 1], vs[i], n),
            Err(_) => refused(hs[i], hs[i + 1], vs[i]),
        } by {
            assert(rs[i] == results[i]);
        }
        law_send_run(vs, rs, hs);
        let step = results[k];
        assert(h0.offered() + vs.push(values[k]) =~= (h0.offered() + vs).push(values[k]));
        assert(vs.push(values[k]) =~= values);
        let acc = accepted_values(vs, rs);
        let cnt = ok_counts(rs);
        match step {
            Ok(n) => {
                assert(h0.sent() + acc.push(values[k]) =~= (h0.sent() + acc).push(values[k]));
                assert(h0.reached() + cnt.push(n) =~= (h0.reached() + cnt).push(n));
            },
            Err(_) => {},
        }
    }
}

} // verus!
