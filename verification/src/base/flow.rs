//! A flow that polls its message source and republishes every message on its
//! output channel.
//!
//! The polling loop sleeps between rounds; each round's decisions are made
//! here.
use crate::base::channel::Channel;
use crate::base::config::FlowConfig;
use crate::base::message::Message;
use crate::base::message_source::MessageSource;
use crate::broadcast::{delivered, handed_over, ok_counts, refused, same_handle, send_value, untouched, valid_capacity, SendHandle};
use crate::shared::clone_arc;
use std::fmt::Debug;
use std::marker::PhantomData;
use std::sync::Arc;
use vstd::prelude::*;

verus! {

/// Why a round of polling did not deliver a message.
pub enum RelayError<T: Clone + Debug, E> {
    /// The source failed with this error.
    Source(E),
    /// The output channel had no receiver; the message is handed back.
    NoReceivers(Message<T>),
}

/// Whether passing on `polled` can come to `r`, with the sending handle
/// going from `before` to `after`: a source error comes back as `Source` and
/// nothing is handed to `send`; a message is handed to `send` once and is
/// either sent, to at least one receiver, or handed back as `NoReceivers`.
pub open spec fn relayed<T: Clone + Debug, E>(
    polled: Result<Message<T>, E>,
    r: Result<usize, RelayError<T, E>>,
    before: SendHandle<Message<T>>,
    after: SendHandle<Message<T>>,
) -> bool {
    match polled {
        Err(e) => r == Err::<usize, RelayError<T, E>>(RelayError::Source(e)) && untouched(
            before,
            after,
        ),
        Ok(m) => {
            ||| (r == Err::<usize, RelayError<T, E>>(RelayError::NoReceivers(m)) && handed_over(
                before,
                after,
                m,
                false,
            ) && refused(before, after, m))
            ||| (r matches Ok(n) && n >= 1 && handed_over(before, after, m, true) && delivered(
                before,
                after,
                m,
                n,
            ))
        },
    }
}

/// Passes on what the source answered: a message is sent on `sender`, an
/// error is handed back.
pub fn relay<T: Clone + Debug, E>(
    sender: &mut SendHandle<Message<T>>,
    polled: Result<Message<T>, E>,
) -> (r: Result<usize, RelayError<T, E>>)
    ensures
        same_handle(*old(sender), *final(sender)),
        relayed(polled, r, *old(sender), *final(sender)),
{
    match polled {
        Err(e) => Err(RelayError::Source(e)),
        Ok(m) => match send_value(sender, None, m) {
            Ok(n) => Ok(n),
            Err(m) => Err(RelayError::NoReceivers(m)),
        },
    }
}

/// A named flow fed by one message source (by default any source, behind a
/// trait object).
#[verifier::reject_recursive_types(T)]
#[verifier::reject_recursive_types(E)]
#[verifier::reject_recursive_types(S)]
pub struct Flow<
    T: Clone + Send + 'static + Debug,
    E,
    S: MessageSource<T, E> + ?Sized = dyn MessageSource<T, E>,
> {
    source: Arc<S>,
    config: FlowConfig,
    payload: PhantomData<(T, E)>,
}

impl<T: Clone + Send + 'static + Debug, E, S: MessageSource<T, E> + ?Sized> Flow<T, E, S> {
    pub closed spec fn source_spec(&self) -> Arc<S> {
        self.source
    }

    pub closed spec fn config_spec(&self) -> FlowConfig {
        self.config
    }

    pub fn new(source: Arc<S>, config: FlowConfig) -> (f: Self)
        ensures
            f.source_spec() == source,
            f.config_spec() == config,
    {
        Self { source, config, payload: PhantomData }
    }

    /// Opens the flow's output channel, with the configured capacity, and a
    /// second sending handle of it for the polling loop.
    pub fn open_output(&self) -> (r: (Channel<T>, SendHandle<Message<T>>))
        requires
            valid_capacity(self.config_spec().capacity_spec()),
        ensures
            r.0.capacity() == Some(self.config_spec().capacity_spec()),
            r.0.outlet().offered() == Seq::<Message<T>>::empty(),
            r.0.sent() == Seq::<Message<T>>::empty(),
            r.0.paired(),
            r.1.handle() == r.0.sender_spec(),
            r.1.channel() == r.0.outlet().channel(),
            r.1.capacity() == r.0.capacity(),
            r.1.offered() == Seq::<Message<T>>::empty(),
            r.1.sent() == Seq::<Message<T>>::empty(),
    {
        let output = Channel::with_capacity(self.config.get_messages_capacity());
        let sender = output.sender();
        (output, sender)
    }

    /// The flow's source (another handle on it).
    pub fn source(&self) -> (s: Arc<S>)
        ensures
            s == self.source_spec(),
    {
        clone_arc(&self.source)
    }

    pub fn config(&self) -> (c: &FlowConfig)
        ensures
            *c == self.config_spec(),
    {
        &self.config
    }
}

/// One round of polling: asks `source` for a message and sends it on
/// `sender`. Whatever the source answers, the result and the record of
/// `sender` are what passing that answer on gives.
pub fn poll_source<T: Clone + Send + 'static + Debug, E, S: MessageSource<T, E> + ?Sized>(
    source: &S,
    sender: &mut SendHandle<Message<T>>,
) -> (r: Result<usize, RelayError<T, E>>)
    ensures
        same_handle(*old(sender), *final(sender)),
        exists|polled: Result<Message<T>, E>|
            #[trigger] relayed(polled, r, *old(sender), *final(sender)),
{
    let polled = source.receive();
    let r = relay(sender, polled);
    assert(relayed(polled, r, *old(sender), *sender));
    r
}

/// The messages a run of answers from a source yields, in order.
pub open spec fn answered_messages<T: Clone + Debug, E>(answers: Seq<Result<Message<T>, E>>) -> Seq<
    Message<T>,
>
    decreases answers.len(),
{
    if answers.len() == 0 {
        Seq::empty()
    } else {
        let earlier = answered_messages(answers.drop_last());
        match answers.last() {
            Ok(m) => earlier.push(m),
            Err(_) => earlier,
        }
    }
}

/// Over a run of polling rounds (each passing the source's answer on as
/// `relay` states it, from `handles[i]` to `handles[i + 1]`), every message
/// the source answered with is handed to the sender once, in order, and
/// nothing else is; a round whose answer is an error sends nothing; and the
/// counts the successful rounds return are exactly the receiver counts
/// tokio returned for those sends, in order.
pub proof fn law_relay_run<T: Clone + Debug, E>(
    answers: Seq<Result<Message<T>, E>>,
    results: Seq<Result<usize, RelayError<T, E>>>,
    handles: Seq<SendHandle<Message<T>>>,
)
    requires
        results.len() == answers.len(),
        handles.len() == answers.len() + 1,
        forall|i: int|
            0 <= i < answers.len() ==> relayed(
                #[trigger] answers[i],
                results[i],
                handles[i],
                handles[i + 1],
            ),
    ensures
        handles.last().offered() == handles[0].offered() + answered_messages(answers),
        handles.last().reached() == handles[0].reached() + ok_counts(results),
    decreases answers.len(),
{
    if answers.len() == 0 {
        assert(handles[0].offered() + Seq::<Message<T>>::empty() =~= handles[0].offered());
        assert(handles[0].reached() + Seq::<usize>::empty() =~= handles[0].reached());
    } else {
        let k = answers.len() - 1;
        let xs = answers.drop_last();
        let hs = handles.drop_last();
        assert forall|i: int| 0 <= i < xs.len() implies relayed(
            #[trigger] xs[i],
            results.drop_last()[i],
            hs[i],
            hs[i + 1],
        ) by {
            assert(xs[i] == answers[i]);
        }
        law_relay_run(xs, results.drop_last(), hs);
        assert(relayed(answers[k], results[k], handles[k], handles[k + 1]));
        let earlier = answered_messages(xs);
        let oc = ok_counts(results.drop_last());
        let h0 = handles[0];
        match answers[k] {
            Ok(m) => {
                assert(h0.offered() + earlier.push(m) =~= (h0.offered() + earlier).push(m));
            },
            Err(_) => {},
        }
        match results[k] {
            Ok(n) => {
                assert(h0.reached() + oc.push(n) =~= (h0.reached() + oc).push(n));
            },
            Err(_) => {},
        }
    }
}

} // verus!
