//! The decisions of a polling source: it waits for its trigger, asks its
//! message source for a message and broadcasts it to every subscribed flow,
//! until it is cancelled.
use crate::broadcast::{
    delivered, handed_over, open_channel, refused, same_handle, send_value, untouched, valid_capacity, ReceiveHandle,
    SendHandle,
};
use crate::flow_core::message::Message;
use vstd::prelude::*;

verus! {

/// The sending half of a fresh broadcast channel of `capacity` messages,
/// which a polling source broadcasts on.
pub fn broadcast_sender<T: Clone>(capacity: usize) -> (s: SendHandle<Message<T>>)
    requires
        valid_capacity(capacity),
    ensures
        s.capacity() == Some(capacity),
        s.channel() is Some,
        s.offered() == Seq::<Message<T>>::empty(),
        s.sent() == Seq::<Message<T>>::empty(),
{
    let (sender, _receiver) = open_channel(capacity);
    sender
}

/// A new receiver of what `sender` broadcasts after this call; it belongs to
/// the sender's channel.
pub fn subscribe<T: Clone>(sender: &SendHandle<Message<T>>) -> (r: ReceiveHandle<Message<T>>)
    ensures
        r.channel() == sender.channel(),
{
    sender.subscribe()
}

/// What the polling loop observed.
pub enum PollEvent<T: Clone, E> {
    /// The cancellation signal fired.
    Cancelled,
    /// The trigger fired and the source answered with a message or an error.
    Polled(Result<Message<T>, E>),
}

/// What handling one event came to.
pub enum PollOutcome<E> {
    /// Cancellation: the loop stops.
    Stopped,
    /// The message went out to this many subscribers.
    Broadcast(usize),
    /// The message was dropped: nobody is subscribed.
    NoReceivers,
    /// The source failed; the loop reports the error and goes on polling.
    SourceFailed(E),
}

/// Whether the polling loop ends after this outcome.
pub open spec fn poll_stops<E>(o: PollOutcome<E>) -> bool {
    o is Stopped
}

impl<E> PollOutcome<E> {
    pub fn stops(&self) -> (b: bool)
        ensures
            b == poll_stops(*self),
    {
        match self {
            PollOutcome::Stopped => true,
            _ => false,
        }
    }
}

/// What handling `event` comes to: the outcome `o`, and the sending handle
/// going from `before` to `after`.
pub open spec fn poll_handled<T: Clone, E>(
    event: PollEvent<T, E>,
    o: PollOutcome<E>,
    before: SendHandle<Message<T>>,
    after: SendHandle<Message<T>>,
) -> bool {
    match event {
        PollEvent::Cancelled => o is Stopped && untouched(before, after),
        PollEvent::Polled(Err(e)) => o == PollOutcome::<E>::SourceFailed(e) && untouched(before, after),
        PollEvent::Polled(Ok(m)) => {
            ||| (o matches PollOutcome::Broadcast(n) && n >= 1 && handed_over(before, after, m, true)
                && delivered(before, after, m, n))
            ||| (o is NoReceivers && handed_over(before, after, m, false) && refused(before, after, m))
        },
    }
}

/// Handles one event of the polling loop: a polled message is broadcast on
/// `sender`, a source error is handed back for reporting.
pub fn poll_step<T: Clone, E>(sender: &mut SendHandle<Message<T>>, event: PollEvent<T, E>) -> (o:
    PollOutcome<E>)
    ensures
        same_handle(*old(sender), *final(sender)),
        poll_stops(o) <==> event is Cancelled,
        poll_handled(event, o, *old(sender), *final(sender)),
{
    match event {
        PollEvent::Cancelled => PollOutcome::Stopped,
        PollEvent::Polled(Err(e)) => PollOutcome::SourceFailed(e),
        PollEvent::Polled(Ok(message)) => match send_value(sender, None, message) {
            Ok(n) => PollOutcome::Broadcast(n),
            Err(_) => PollOutcome::NoReceivers,
        },
    }
}

/// The messages a run of polling events yields: what the source answered
/// with a message, in order.
pub open spec fn polled_messages<T: Clone, E>(events: Seq<PollEvent<T, E>>) -> Seq<Message<T>>
    decreases events.len(),
{
    if events.len() == 0 {
        Seq::empty()
    } else {
        let earlier = polled_messages(events.drop_last());
        match events.last() {
            PollEvent::Polled(Ok(m)) => earlier.push(m),
            _ => earlier,
        }
    }
}

/// The subscriber counts reported by the `Broadcast` outcomes of a run, in
/// order.
pub open spec fn broadcast_counts<E>(outcomes: Seq<PollOutcome<E>>) -> Seq<usize>
    decreases outcomes.len(),
{
    if outcomes.len() == 0 {
        Seq::empty()
    } else {
        let earlier = broadcast_counts(outcomes.drop_last());
        match outcomes.last() {
            PollOutcome::Broadcast(n) => earlier.push(n),
            _ => earlier,
        }
    }
}

/// Over a run of the polling loop (each step as `poll_step` states it, from
/// `handles[i]` to `handles[i + 1]`), every message the source answered with
/// is handed to the broadcast sender once, in the order polled, and nothing
/// else is; the counts the `Broadcast` outcomes report are exactly the
/// receiver counts tokio returned for those sends, in order.
pub proof fn law_poll_run<T: Clone, E>(
    events: Seq<PollEvent<T, E>>,
    outcomes: Seq<PollOutcome<E>>,
    handles: Seq<SendHandle<Message<T>>>,
)
    requires
        outcomes.len() == events.len(),
        handles.len() == events.len() + 1,
        forall|i: int|
            0 <= i < events.len() ==> poll_handled(
                #[trigger] events[i],
                outcomes[i],
                handles[i],
                handles[i + 1],
            ),
    ensures
        handles.last().offered() == handles[0].offered() + polled_messages(events),
        handles.last().reached() == handles[0].reached() + broadcast_counts(outcomes),
    decreases events.len(),
{
    if events.len() == 0 {
        assert(handles[0].offered() + Seq::<Message<T>>::empty() =~= handles[0].offered());
        assert(handles[0].reached() + Seq::<usize>::empty() =~= handles[0].reached());
    } else {
        let k = events.len() - 1;
        let es = events.drop_last();
        let hs = handles.drop_last();
        assert forall|i: int| 0 <= i < es.len() implies poll_handled(
            #[trigger] es[i],
            outcomes.drop_last()[i],
            hs[i],
            hs[i + 1],
        ) by {
            assert(es[i] == events[i]);
        }
        law_poll_run(es, outcomes.drop_last(), hs);
        assert(poll_handled(events[k], outcomes[k], handles[k], handles[k + 1]));
        let earlier = polled_messages(es);
        let bc = broadcast_counts(outcomes.drop_last());
        let h0 = handles[0];
        match events[k] {
            PollEvent::Polled(Ok(m)) => {
                assert(h0.offered() + earlier.push(m) =~= (h0.offered() + earlier).push(m));
                match outcomes[k] {
                    PollOutcome::Broadcast(n) => {
                        assert(h0.reached() + bc.push(n) =~= (h0.reached() + bc).push(n));
                    },
                    _ => {},
                }
            },
            _ => {},
        }
    }
}

} // verus!
