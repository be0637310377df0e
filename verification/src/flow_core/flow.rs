//! A flow: receives the messages of a broadcast source, keeps those its
//! filter lets through and republishes them on its own output channel.
//!
//! The receive loop itself waits on the source and on a cancellation signal;
//! every decision it takes is made here, one event at a time.
use crate::broadcast::{delivered, handed_over, refused, same_handle, send_value, untouched, valid_capacity, SendHandle};
use crate::flow_core::channel::Channel;
use crate::flow_core::config::FlowConfig;
use crate::flow_core::filter::{admitted, Filter};
use crate::flow_core::message::Message;
use std::fmt::Debug;
use std::sync::Arc;
use vstd::prelude::*;

verus! {

/// What the receive loop observed.
pub enum FlowEvent<T: Clone> {
    /// The cancellation signal fired.
    Cancelled,
    /// A message arrived from the source.
    Received(Message<T>),
    /// The loop fell behind the source and missed this many messages.
    Lagged(u64),
    /// The source channel was closed.
    Closed,
}

/// What the loop does about an event, before anything is sent.
pub enum FlowStep<T: Clone> {
    /// Leave the loop.
    Stop,
    /// Go on waiting without sending anything.
    Skip,
    /// Send this message on the output channel, then go on waiting.
    Forward(Message<T>),
}

/// The decision for `event`, where `accepted` says whether the flow's filter
/// (if any) lets a received message through.
pub open spec fn flow_step<T: Clone>(event: FlowEvent<T>, accepted: bool) -> FlowStep<T> {
    match event {
        FlowEvent::Cancelled => FlowStep::Stop,
        FlowEvent::Closed => FlowStep::Stop,
        FlowEvent::Lagged(_) => FlowStep::Skip,
        FlowEvent::Received(m) => if accepted {
            FlowStep::Forward(m)
        } else {
            FlowStep::Skip
        },
    }
}

/// Decides what to do about `event`, given the filter's verdict `accepted`
/// on a received message.
pub fn decide<T: Clone>(event: FlowEvent<T>, accepted: bool) -> (s: FlowStep<T>)
    ensures
        s == flow_step(event, accepted),
{
    match event {
        FlowEvent::Cancelled => FlowStep::Stop,
        FlowEvent::Closed => FlowStep::Stop,
        FlowEvent::Lagged(_) => FlowStep::Skip,
        FlowEvent::Received(m) => if accepted {
            FlowStep::Forward(m)
        } else {
            FlowStep::Skip
        },
    }
}

/// A flow's receive loop stops on cancellation and on a closed source and on
/// no other event; in particular missing messages (lag) never stops it.
pub proof fn law_flow_stops_only_on_cancel_or_close<T: Clone>(event: FlowEvent<T>, accepted: bool)
    ensures
        flow_step(event, accepted) is Stop <==> (event is Cancelled || event is Closed),
        event is Lagged ==> flow_step(event, accepted) is Skip,
{
}

/// A received message is passed on, unchanged, exactly when the filter
/// accepts it; a rejected message is dropped without stopping the flow.
pub proof fn law_forward_iff_accepted<T: Clone>(m: Message<T>, accepted: bool)
    ensures
        flow_step(FlowEvent::Received(m), accepted) is Forward <==> accepted,
        accepted ==> flow_step(FlowEvent::Received(m), accepted) == FlowStep::Forward(m),
        !accepted ==> flow_step(FlowEvent::Received(m), accepted) is Skip,
{
}

/// What handling one event came to; the loop reports it and leaves on the
/// first two.
pub enum FlowOutcome {
    /// Cancellation: the loop stops.
    Cancelled,
    /// The source is gone: the loop stops.
    SourceClosed,
    /// Missed messages were skipped.
    Lagged(u64),
    /// The filter held the message back.
    Filtered,
    /// The message went out to this many receivers.
    Forwarded(usize),
    /// The message was let through but the output channel had no receiver.
    NoReceivers,
}

/// Whether the receive loop ends after this outcome.
pub open spec fn outcome_stops(o: FlowOutcome) -> bool {
    o is Cancelled || o is SourceClosed
}

impl FlowOutcome {
    pub fn stops(&self) -> (b: bool)
        ensures
            b == outcome_stops(*self),
    {
        match self {
            FlowOutcome::Cancelled => true,
            FlowOutcome::SourceClosed => true,
            _ => false,
        }
    }
}

/// A named processing stage of a pipeline.
#[verifier::reject_recursive_types(T)]
pub struct Flow<T: Clone + Send + 'static + Sync + Debug> {
    config: FlowConfig<T>,
}

impl<T: Clone + Send + 'static + Sync + Debug> Flow<T> {
    pub closed spec fn config_spec(&self) -> FlowConfig<T> {
        self.config
    }

    pub fn new(config: FlowConfig<T>) -> (f: Self)
        ensures
            f.config_spec() == config,
    {
        Self { config }
    }

    pub fn get_name(&self) -> (n: String)
        ensures
            n@ == self.config_spec().name_spec(),
    {
        self.config.get_name()
    }

    /// Opens the flow's output channel, with the configured capacity, and a
    /// second sending handle of it for the receive loop.
    pub fn open_output(&self) -> (r: (Channel<T>, SendHandle<Message<T>>))
        requires
            valid_capacity(self.config_spec().capacity_spec()),
        ensures
            r.0.capacity() == Some(self.config_spec().capacity_spec()),
            r.0.outlet().offered() == Seq::<Message<T>>::empty(),
            r.0.sent() == Seq::<Message<T>>::empty(),
            r.0.paired(),
            r.1.handle() == r.0.sender_spec(),
            r.1.channel() == r.0.outlet().channel(),
            r.1.capacity() == r.0.capacity(),
            r.1.offered() == Seq::<Message<T>>::empty(),
            r.1.sent() == Seq::<Message<T>>::empty(),
    {
        let output = Channel::with_capacity(self.config.get_messages_capacity());
        let sender = output.sender();
        (output, sender)
    }

    pub fn config(&self) -> (c: &FlowConfig<T>)
        ensures
            *c == self.config_spec(),
    {
        &self.config
    }
}

/// Asks `filter` about `message`; without a filter every message passes.
pub fn accepts<T: Clone + Send + 'static + Sync + Debug>(
    filter: &Option<Arc<dyn Filter<T>>>,
    message: &Message<T>,
) -> (b: bool)
    ensures
        b == admitted(*filter, *message),
{
    match filter {
        Some(f) => f.filter(message),
        None => true,
    }
}

/// Whether sending `m` came to `o`, with the sending handle going from
/// `before` to `after`: `m` was handed to `send` once, and either went out,
/// `o` then carrying the number of receivers tokio reported reaching, or
/// nobody was listening.
pub open spec fn forwarded<T: Clone>(
    o: FlowOutcome,
    m: Message<T>,
    before: SendHandle<Message<T>>,
    after: SendHandle<Message<T>>,
) -> bool {
    ||| (o matches FlowOutcome::Forwarded(k) && k >= 1 && handed_over(before, after, m, true)
        && delivered(before, after, m, k))
    ||| (o is NoReceivers && handed_over(before, after, m, false) && refused(before, after, m))
}

/// What handling `event` with the filter's verdict `accepted` comes to: the
/// outcome `o`, and the output handle going from `before` to `after`.
pub open spec fn event_handled<T: Clone>(
    event: FlowEvent<T>,
    accepted: bool,
    o: FlowOutcome,
    before: SendHandle<Message<T>>,
    after: SendHandle<Message<T>>,
) -> bool {
    match event {
        FlowEvent::Cancelled => o == FlowOutcome::Cancelled && untouched(before, after),
        FlowEvent::Closed => o == FlowOutcome::SourceClosed && untouched(before, after),
        FlowEvent::Lagged(n) => o == FlowOutcome::Lagged(n) && untouched(before, after),
        FlowEvent::Received(m) => if accepted {
            forwarded(o, m, before, after)
        } else {
            o == FlowOutcome::Filtered && untouched(before, after)
        },
    }
}

/// The verdict a flow with `filter` reaches on `event`: a received message is
/// put to the filter; other events need none.
pub open spec fn verdict<T: Clone + Send + 'static + Sync + Debug>(
    filter: Option<Arc<dyn Filter<T>>>,
    event: FlowEvent<T>,
) -> bool {
    match event {
        FlowEvent::Received(m) => admitted(filter, m),
        _ => true,
    }
}

/// Handles one event of a flow's receive loop: a received message is put to
/// `filter` (if any) and sent on `output` exactly when it passes.
pub fn handle_event<T: Clone + Send + 'static + Sync + Debug>(
    filter: &Option<Arc<dyn Filter<T>>>,
    output: &mut SendHandle<Message<T>>,
    event: FlowEvent<T>,
) -> (o: FlowOutcome)
    ensures
        same_handle(*old(output), *final(output)),
        outcome_stops(o) <==> (event is Cancelled || event is Closed),
        event_handled(event, verdict(*filter, event), o, *old(output), *final(output)),
{
    let accepted = match &event {
        FlowEvent::Received(m) => accepts(filter, m),
        _ => true,
    };
    handle_decided(output, event, accepted)
}

/// Carries out the decision on `event` given the filter's verdict
/// `accepted`: a message that passes is sent on `output`.
pub fn handle_decided<T: Clone>(
    output: &mut SendHandle<Message<T>>,
    event: FlowEvent<T>,
    accepted: bool,
) -> (o: FlowOutcome)
    ensures
        same_handle(*old(output), *final(output)),
        outcome_stops(o) <==> (event is Cancelled || event is Closed),
        event_handled(event, accepted, o, *old(output), *final(output)),
{
    match event {
        FlowEvent::Cancelled => FlowOutcome::Cancelled,
        FlowEvent::Closed => FlowOutcome::SourceClosed,
        FlowEvent::Lagged(n) => FlowOutcome::Lagged(n),
        FlowEvent::Received(m) => match decide(FlowEvent::Received(m), accepted) {
            FlowStep::Forward(m) => match send_value(output, None, m) {
                Ok(n) => FlowOutcome::Forwarded(n),
                Err(_) => FlowOutcome::NoReceivers,
            },
            _ => FlowOutcome::Filtered,
        },
    }
}

/// The messages a flow with `filter` passes on from a run of events: the
/// received ones its filter admits, in the order received.
pub open spec fn passed_on<T: Clone + Send + 'static + Sync + Debug>(
    filter: Option<Arc<dyn Filter<T>>>,
    events: Seq<FlowEvent<T>>,
) -> Seq<Message<T>>
    decreases events.len(),
{
    if events.len() == 0 {
        Seq::empty()
    } else {
        let earlier = passed_on(filter, events.drop_last());
        match events.last() {
            FlowEvent::Received(m) => if admitted(filter, m) {
                earlier.push(m)
            } else {
                earlier
            },
            _ => earlier,
        }
    }
}

/// The receiver counts reported by the `Forwarded` outcomes of a run, in
/// order.
pub open spec fn forwarded_counts(outcomes: Seq<FlowOutcome>) -> Seq<usize>
    decreases outcomes.len(),
{
    if outcomes.len() == 0 {
        Seq::empty()
    } else {
        let earlier = forwarded_counts(outcomes.drop_last());
        match outcomes.last() {
            FlowOutcome::Forwarded(k) => earlier.push(k),
            _ => earlier,
        }
    }
}

/// The received messages of a run whose outcome was `Forwarded`, in order.
pub open spec fn forwarded_messages<T: Clone>(events: Seq<FlowEvent<T>>, outcomes: Seq<FlowOutcome>) -> Seq<
    Message<T>,
>
    decreases events.len(),
{
    if events.len() == 0 || outcomes.len() != events.len() {
        Seq::empty()
    } else {
        let earlier = forwarded_messages(events.drop_last(), outcomes.drop_last());
        match (events.last(), outcomes.last()) {
            (FlowEvent::Received(m), FlowOutcome::Forwarded(_)) => earlier.push(m),
            _ => earlier,
        }
    }
}

/// Over a run of the receive loop (each step as `handle_event` states it,
/// from `handles[i]` to `handles[i + 1]`), exactly the received messages the
/// filter admits are handed to the output, each once, in the order received,
/// and nothing else is; the messages tokio accepted are exactly those whose
/// outcome says `Forwarded`, and the counts those outcomes report are
/// exactly the receiver counts tokio returned, in order.
pub proof fn law_flow_run<T: Clone + Send + 'static + Sync + Debug>(
    filter: Option<Arc<dyn Filter<T>>>,
    events: Seq<FlowEvent<T>>,
    outcomes: Seq<FlowOutcome>,
    handles: Seq<SendHandle<Message<T>>>,
)
    requires
        outcomes.len() == events.len(),
        handles.len() == events.len() + 1,
        forall|i: int|
            0 <= i < events.len() ==> event_handled(
                #[trigger] events[i],
                verdict(filter, events[i]),
                outcomes[i],
                handles[i],
                handles[i + 1],
            ),
    ensures
        handles.last().offered() == handles[0].offered() + passed_on(filter, events),
        handles.last().sent() == handles[0].sent() + forwarded_messages(events, outcomes),
        handles.last().reached() == handles[0].reached() + forwarded_counts(outcomes),
    decreases events.len(),
{
    if events.len() == 0 {
        assert(handles[0].offered() + Seq::<Message<T>>::empty() =~= handles[0].offered());
        assert(handles[0].sent() + Seq::<Message<T>>::empty() =~= handles[0].sent());
        assert(handles[0].reached() + Seq::<usize>::empty() =~= handles[0].reached());
    } else {
        let k = events.len() - 1;
        let es = events.drop_last();
        let hs = handles.drop_last();
        assert forall|i: int| 0 <= i < es.len() implies event_handled(
            #[trigger] es[i],
            verdict(filter, es[i]),
            outcomes.drop_last()[i],
            hs[i],
            hs[i + 1],
        ) by {
            assert(es[i] == events[i]);
        }
        law_flow_run(filter, es, outcomes.drop_last(), hs);
        assert(event_handled(events[k], verdict(filter, events[k]), outcomes[k], handles[k], handles[k + 1]));
        let earlier = passed_on(filter, es);
        let fm = forwarded_messages(es, outcomes.drop_last());
        let fc = forwarded_counts(outcomes.drop_last());
        let h0 = handles[0];
        match events[k] {
            FlowEvent::Received(m) => {
                if admitted(filter, m) {
                    assert(h0.offered() + earlier.push(m) =~= (h0.offered() + earlier).push(m));
                }
                match outcomes[k] {
                    FlowOutcome::Forwarded(n) => {
                        assert(h0.sent() + fm.push(m) =~= (h0.sent() + fm).push(m));
                        assert(h0.reached() + fc.push(n) =~= (h0.reached() + fc).push(n));
                    },
                    _ => {},
                }
            },
            _ => {},
        }
    }
}

} // verus!
