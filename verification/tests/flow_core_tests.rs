use flow_rs::broadcast::{is_valid_capacity, SendHandle};
use flow_rs::flow_core::broadcast_source::{broadcast_sender, poll_step, subscribe, PollEvent, PollOutcome};
use flow_rs::flow_core::channel::Channel;
use flow_rs::flow_core::config::{FlowConfigBuilder, FlowConfigBuilderError};
use flow_rs::flow_core::filter::Filter;
use flow_rs::flow_core::flow::{decide, handle_decided, handle_event, Flow, FlowEvent, FlowOutcome, FlowStep};
use flow_rs::flow_core::message::Message;
use flow_rs::flow_core::pipeline::OutputChannels;
use std::sync::Arc;
use tokio::sync::broadcast::error::TryRecvError;

struct HelloFilter {}

impl Filter<String> for HelloFilter {
    fn admits(&self, message: Message<String>) -> bool {
        message.get_payload().starts_with("Hello")
    }

    fn filter(&self, message: &Message<String>) -> bool {
        message.get_payload().starts_with("Hello")
    }
}

fn hello_filter() -> Option<Arc<dyn Filter<String>>> {
    Some(Arc::new(HelloFilter {}))
}

#[test]
fn message_gives_back_its_payload() {
    let m = Message::new(String::from("Hello world"));
    assert_eq!(m.get_payload(), "Hello world");
    let copy = m.clone();
    assert_eq!(copy.get_payload(), "Hello world");
}

#[test]
fn builder_builds_config_with_the_fields_set() {
    let filter = hello_filter();
    let config = FlowConfigBuilder::default()
        .name("Flow 1".to_string())
        .messages_capacity(100)
        .filter(filter.clone())
        .build()
        .unwrap();
    assert_eq!(config.get_messages_capacity(), 100);
    assert_eq!(config.get_name(), "Flow 1");
    let got = config.get_filter().expect("filter set");
    assert!(Arc::ptr_eq(&got, filter.as_ref().unwrap()));
    assert!(config.filter_ref().is_some());
}

#[test]
fn builder_without_filter_builds_config_without_filter() {
    let config = FlowConfigBuilder::<String>::default()
        .name("Flow 2".to_string())
        .messages_capacity(7)
        .filter(None)
        .build()
        .ok()
        .expect("all fields set");
    assert!(config.get_filter().is_none());
    assert_eq!(config.get_messages_capacity(), 7);
}

#[test]
fn builder_reports_first_missing_field() {
    let empty = FlowConfigBuilder::<String>::default();
    assert!(matches!(empty.build(), Err(FlowConfigBuilderError::UninitializedField("messages_capacity"))));

    let mut b = FlowConfigBuilder::<String>::default();
    b.filter(None);
    assert!(matches!(b.build(), Err(FlowConfigBuilderError::UninitializedField("messages_capacity"))));
    b.messages_capacity(3);
    assert!(matches!(b.build(), Err(FlowConfigBuilderError::UninitializedField("name"))));

    let mut c = FlowConfigBuilder::<String>::default();
    c.messages_capacity(3).name("n".to_string());
    assert!(matches!(c.build(), Err(FlowConfigBuilderError::UninitializedField("filter"))));
}

#[test]
fn builder_keeps_last_value_set() {
    let mut b = FlowConfigBuilder::<String>::default();
    b.messages_capacity(1).messages_capacity(2).name("a".to_string()).name("b".to_string()).filter(hello_filter()).filter(None);
    let config = b.build().ok().expect("all fields set");
    assert_eq!(config.get_messages_capacity(), 2);
    assert_eq!(config.get_name(), "b");
    assert!(config.get_filter().is_none());
}

#[test]
fn capacity_bounds() {
    assert!(!is_valid_capacity(0));
    assert!(is_valid_capacity(1));
    assert!(is_valid_capacity(usize::MAX / 2));
    assert!(!is_valid_capacity(usize::MAX / 2 + 1));
}

#[test]
fn channel_send_reaches_its_receivers() {
    let mut channel: Channel<u32> = Channel::with_capacity(4);
    let mut extra = channel.subscribe().into_receiver();
    match channel.send(Message::new(9)) {
        Ok(n) => assert_eq!(n, 2),
        Err(_) => panic!("the channel holds a receiver"),
    }
    let got = channel.broadcast_receiver_mut().try_recv().ok().expect("message delivered");
    assert_eq!(*got.get_payload(), 9);
    let got = extra.try_recv().ok().expect("message delivered");
    assert_eq!(*got.get_payload(), 9);
    assert!(matches!(channel.broadcast_receiver_mut().try_recv(), Err(TryRecvError::Empty)));
}

#[test]
fn channel_from_parts_uses_them() {
    let (tx, rx) = tokio::sync::broadcast::channel::<Message<u8>>(2);
    let mut channel = Channel::new(tx, rx);
    let mut other_sender = channel.sender();
    let outcome = handle_decided(&mut other_sender, FlowEvent::Received(Message::new(4)), true);
    assert!(matches!(outcome, FlowOutcome::Forwarded(1)));
    let got = channel.broadcast_receiver_mut().try_recv().ok().expect("message delivered");
    assert_eq!(*got.get_payload(), 4);
    assert!(channel.broadcast_receiver().is_empty());
}

#[test]
fn decide_follows_the_rules() {
    assert!(matches!(decide::<u8>(FlowEvent::Cancelled, true), FlowStep::Stop));
    assert!(matches!(decide::<u8>(FlowEvent::Closed, true), FlowStep::Stop));
    assert!(matches!(decide::<u8>(FlowEvent::Lagged(5), true), FlowStep::Skip));
    assert!(matches!(decide(FlowEvent::Received(Message::new(1u8)), false), FlowStep::Skip));
    match decide(FlowEvent::Received(Message::new(1u8)), true) {
        FlowStep::Forward(m) => assert_eq!(*m.get_payload(), 1),
        _ => panic!("an accepted message is forwarded"),
    }
}

#[test]
fn handle_event_without_filter_forwards_everything() {
    let (tx, mut rx) = tokio::sync::broadcast::channel::<Message<String>>(8);
    let mut tx = SendHandle::from_sender(tx);
    let outcome = handle_event(&None, &mut tx, FlowEvent::Received(Message::new("Bye".to_string())));
    assert!(matches!(outcome, FlowOutcome::Forwarded(1)));
    assert!(!outcome.stops());
    assert_eq!(rx.try_recv().ok().expect("forwarded").get_payload(), "Bye");
}

#[test]
fn handle_event_with_filter_drops_rejected_messages() {
    let (tx, mut rx) = tokio::sync::broadcast::channel::<Message<String>>(8);
    let mut tx = SendHandle::from_sender(tx);
    let filter = hello_filter();
    let outcome = handle_event(&filter, &mut tx, FlowEvent::Received(Message::new("Bye".to_string())));
    assert!(matches!(outcome, FlowOutcome::Filtered));
    assert!(!outcome.stops());
    assert!(matches!(rx.try_recv(), Err(TryRecvError::Empty)));
    let outcome = handle_event(&filter, &mut tx, FlowEvent::Received(Message::new("Hello there".to_string())));
    assert!(matches!(outcome, FlowOutcome::Forwarded(1)));
    assert_eq!(rx.try_recv().ok().expect("forwarded").get_payload(), "Hello there");
}

#[test]
fn handle_event_stops_on_cancel_and_close_only() {
    let (tx, _rx) = tokio::sync::broadcast::channel::<Message<String>>(8);
    let mut tx = SendHandle::from_sender(tx);
    let c = handle_event(&None, &mut tx, FlowEvent::Cancelled);
    assert!(matches!(c, FlowOutcome::Cancelled));
    assert!(c.stops());
    let c = handle_event(&None, &mut tx, FlowEvent::Closed);
    assert!(matches!(c, FlowOutcome::SourceClosed));
    assert!(c.stops());
    let c = handle_event(&None, &mut tx, FlowEvent::Lagged(3));
    assert!(matches!(c, FlowOutcome::Lagged(3)));
    assert!(!c.stops());
}

#[test]
fn handle_decided_reports_missing_receivers() {
    let (tx, rx) = tokio::sync::broadcast::channel::<Message<u8>>(8);
    drop(rx);
    let mut tx = SendHandle::from_sender(tx);
    let outcome = handle_decided(&mut tx, FlowEvent::Received(Message::new(1u8)), true);
    assert!(matches!(outcome, FlowOutcome::NoReceivers));
    let outcome = handle_decided(&mut tx, FlowEvent::Received(Message::new(1u8)), false);
    assert!(matches!(outcome, FlowOutcome::Filtered));
}

#[test]
fn flow_opens_its_output_and_knows_its_name() {
    let config = FlowConfigBuilder::<String>::default()
        .name("Flow 1".to_string())
        .messages_capacity(4)
        .filter(None)
        .build()
        .ok()
        .expect("all fields set");
    let flow = Flow::new(config);
    assert_eq!(flow.get_name(), "Flow 1");
    assert_eq!(flow.config().get_messages_capacity(), 4);
    let (mut output, mut sender) = flow.open_output();
    let outcome = handle_event(&flow.config().get_filter(), &mut sender, FlowEvent::Received(Message::new("x".to_string())));
    assert!(matches!(outcome, FlowOutcome::Forwarded(1)));
    assert_eq!(output.broadcast_receiver_mut().try_recv().ok().expect("delivered").get_payload(), "x");
}

#[test]
fn poll_step_broadcasts_or_reports() {
    let mut sender = broadcast_sender::<u8>(4);
    let mut rx = subscribe(&sender).into_receiver();
    assert!(matches!(poll_step::<u8, String>(&mut sender, PollEvent::Cancelled), PollOutcome::Stopped));
    assert!(poll_step::<u8, String>(&mut sender, PollEvent::Cancelled).stops());
    match poll_step::<u8, String>(&mut sender, PollEvent::Polled(Err("boom".to_string()))) {
        PollOutcome::SourceFailed(e) => assert_eq!(e, "boom"),
        _ => panic!("a source error is reported"),
    }
    let o = poll_step::<u8, String>(&mut sender, PollEvent::Polled(Ok(Message::new(6))));
    assert!(matches!(o, PollOutcome::Broadcast(1)));
    assert!(!o.stops());
    assert_eq!(*rx.try_recv().ok().expect("broadcast").get_payload(), 6);
}

#[test]
fn poll_step_without_subscribers_drops_the_message() {
    let mut sender = broadcast_sender::<u8>(4);
    let o = poll_step::<u8, String>(&mut sender, PollEvent::Polled(Ok(Message::new(6))));
    assert!(matches!(o, PollOutcome::NoReceivers));
    assert!(!o.stops());
}

fn fresh_channel() -> Channel<u8> {
    Channel::with_capacity(2)
}

#[test]
fn output_channels_map_names_to_channels() {
    let mut outputs = OutputChannels::new();
    assert!(outputs.is_empty());
    assert!(outputs.insert("Flow 1".to_string(), fresh_channel()).is_none());
    assert!(outputs.insert("Flow 2".to_string(), fresh_channel()).is_none());
    assert_eq!(outputs.len(), 2);
    assert!(outputs.contains_key("Flow 1"));
    assert!(!outputs.contains_key("Flow 3"));
    assert!(outputs.get("Flow 2").is_some());
    assert!(outputs.get("Flow 3").is_none());
    assert!(outputs.remove("Flow 1").is_some());
    assert!(outputs.remove("Flow 1").is_none());
    assert_eq!(outputs.len(), 1);
    assert!(!outputs.contains_key("Flow 1"));
    assert!(outputs.contains_key("Flow 2"));
}

#[test]
fn output_channels_keep_the_last_channel_under_a_name() {
    let mut outputs = OutputChannels::new();
    let first = fresh_channel();
    let mut first_rx = first.subscribe().into_receiver();
    let second = fresh_channel();
    let mut second_rx = second.subscribe().into_receiver();
    assert!(outputs.insert("Flow".to_string(), first).is_some() == false);
    let mut replaced = outputs.insert("Flow".to_string(), second).expect("the first channel is handed back");
    assert_eq!(outputs.len(), 1);
    assert!(replaced.send(Message::new(1)).is_ok());
    assert_eq!(*first_rx.try_recv().ok().expect("first channel").get_payload(), 1);
    assert!(outputs.get("Flow").is_some());
    let mut kept = outputs.remove("Flow").expect("present");
    assert!(kept.send(Message::new(2)).is_ok());
    assert_eq!(*second_rx.try_recv().ok().expect("second channel").get_payload(), 2);
}

#[test]
fn output_channels_remove_undoes_insert() {
    let mut outputs = OutputChannels::new();
    outputs.insert("a".to_string(), fresh_channel());
    outputs.insert("b".to_string(), fresh_channel());
    assert!(outputs.remove("b").is_some());
    assert_eq!(outputs.len(), 1);
    assert!(outputs.contains_key("a"));
    assert!(!outputs.contains_key("b"));
}

#[test]
fn collect_outputs_keeps_last_flow_per_name() {
    let a1 = fresh_channel();
    let mut a1_rx = a1.subscribe().into_receiver();
    let b = fresh_channel();
    let a2 = fresh_channel();
    let mut a2_rx = a2.subscribe().into_receiver();
    let mut outputs = flow_rs::flow_core::pipeline::collect_outputs(vec![
        ("A".to_string(), a1),
        ("B".to_string(), b),
        ("A".to_string(), a2),
    ]);
    assert_eq!(outputs.len(), 2);
    assert!(outputs.contains_key("B"));
    assert!(!outputs.contains_key("C"));
    assert!(outputs.get("A").is_some());
    assert!(outputs.remove("A").expect("A present").send(Message::new(7)).is_ok());
    assert_eq!(*a2_rx.try_recv().ok().expect("latest A").get_payload(), 7);
    assert!(a1_rx.try_recv().is_err());
}

#[test]
fn collect_outputs_of_nothing_is_empty() {
    let outputs = flow_rs::flow_core::pipeline::collect_outputs::<u8>(Vec::new());
    assert!(outputs.is_empty());
}

#[test]
fn filtered_flow_passes_only_hello_messages_in_order() {
    let config = FlowConfigBuilder::default()
        .name("Flow 1".to_string())
        .messages_capacity(100)
        .filter(hello_filter())
        .build()
        .unwrap();
    let flow = Flow::new(config);
    let mut source = broadcast_sender::<String>(100);
    let mut source_rx = subscribe(&source).into_receiver();
    let (mut output, mut sender) = flow.open_output();
    for text in ["Hello a", "Bye b", "Hello c"] {
        let o = poll_step::<String, String>(&mut source, PollEvent::Polled(Ok(Message::new(text.to_string()))));
        assert!(matches!(o, PollOutcome::Broadcast(1)));
    }
    let filter = flow.config().get_filter();
    while let Ok(m) = source_rx.try_recv() {
        let outcome = handle_event(&filter, &mut sender, FlowEvent::Received(m));
        assert!(!outcome.stops());
    }
    let rx = output.broadcast_receiver_mut();
    assert_eq!(rx.try_recv().ok().expect("first").get_payload(), "Hello a");
    assert_eq!(rx.try_recv().ok().expect("second").get_payload(), "Hello c");
    assert!(matches!(rx.try_recv(), Err(TryRecvError::Empty)));
}

#[test]
fn channel_new_keeps_the_given_receiver_and_sends_nothing() {
    let (tx, rx) = tokio::sync::broadcast::channel::<Message<u8>>(4);
    assert!(tx.send(Message::new(1)).is_ok());
    assert!(tx.send(Message::new(2)).is_ok());
    let mut other = tx.subscribe();
    let mut channel = Channel::new(tx, rx);
    assert_eq!(channel.broadcast_receiver().len(), 2);
    let r = channel.broadcast_receiver_mut();
    assert_eq!(*r.try_recv().ok().expect("first").get_payload(), 1);
    assert_eq!(*r.try_recv().ok().expect("second").get_payload(), 2);
    assert!(matches!(r.try_recv(), Err(TryRecvError::Empty)));
    assert!(matches!(other.try_recv(), Err(TryRecvError::Empty)));
}

#[test]
fn opened_channel_send_succeeds_while_it_holds_its_receiver() {
    let mut channel: Channel<u8> = Channel::with_capacity(1);
    for i in 0..3u8 {
        assert!(channel.send(Message::new(i)).is_ok());
    }
}

#[test]
fn hello_filter_admits_what_it_passes() {
    let f = HelloFilter {};
    for text in ["Hello a", "Bye b", "Hello"] {
        let m = Message::new(text.to_string());
        assert_eq!(f.filter(&m), f.admits(m.clone()));
    }
}
