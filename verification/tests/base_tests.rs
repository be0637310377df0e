use flow_rs::base::channel::Channel;
use flow_rs::base::config::FlowConfig;
use flow_rs::base::flow::{poll_source, relay, Flow, RelayError};
use flow_rs::base::message::Message;
use flow_rs::base::message_source::MessageSource;
use flow_rs::broadcast::SendHandle;
use flow_rs::base::trigger::IntervalTrigger;
use std::sync::atomic::{AtomicU32, Ordering as AtomicOrdering};
use std::sync::Arc;
use std::time::Duration;

struct Counter {
    next: AtomicU32,
}

impl MessageSource<u32, String> for Counter {
    fn receive(&self) -> Result<Message<u32>, String> {
        Ok(Message::new(self.next.fetch_add(1, AtomicOrdering::SeqCst)))
    }
}

struct Broken {}

impl MessageSource<u32, String> for Broken {
    fn receive(&self) -> Result<Message<u32>, String> {
        Err("source down".to_string())
    }
}

#[test]
fn base_message_gives_back_its_payload() {
    let m = Message::new(vec![1, 2, 3]);
    assert_eq!(m.payload(), &vec![1, 2, 3]);
    assert_eq!(format!("{:?}", m.clone().payload()), "[1, 2, 3]");
}

#[test]
fn base_config_keeps_its_fields() {
    let config = FlowConfig::new("Flow A".to_string(), 16);
    assert_eq!(config.get_name(), "Flow A");
    assert_eq!(config.get_messages_capacity(), 16);
}

#[test]
fn interval_trigger_keeps_its_interval() {
    let t = IntervalTrigger::new(Duration::from_millis(250));
    assert_eq!(t.duration(), Duration::from_millis(250));
}

#[test]
fn base_channel_send_and_receive() {
    let mut channel: Channel<u32> = Channel::with_capacity(4);
    match channel.send(Message::new(11)) {
        Ok(n) => assert_eq!(n, 1),
        Err(_) => panic!("the channel holds a receiver"),
    }
    let got = channel.broadcast_receiver_mut().try_recv().expect("delivered");
    assert_eq!(*got.payload(), 11);
    let (tx, rx) = tokio::sync::broadcast::channel(2);
    let mut c = Channel::new(tx, rx);
    assert_eq!(relay::<u32, String>(&mut c.sender(), Ok(Message::new(5u32))).ok(), Some(1));
    assert_eq!(*c.broadcast_receiver_mut().try_recv().expect("delivered").payload(), 5);
}

#[test]
fn relay_passes_on_messages_and_errors() {
    let (tx, mut rx) = tokio::sync::broadcast::channel::<Message<u32>>(4);
    let mut tx = SendHandle::from_sender(tx);
    assert_eq!(relay::<u32, String>(&mut tx, Ok(Message::new(3))).ok(), Some(1));
    assert_eq!(*rx.try_recv().expect("relayed").payload(), 3);
    match relay::<u32, String>(&mut tx, Err("bad".to_string())) {
        Err(RelayError::Source(e)) => assert_eq!(e, "bad"),
        _ => panic!("the source error is handed back"),
    }
    drop(rx);
    match relay::<u32, String>(&mut tx, Ok(Message::new(8))) {
        Err(RelayError::NoReceivers(m)) => assert_eq!(*m.payload(), 8),
        _ => panic!("without receivers the message is handed back"),
    }
}

#[test]
fn base_flow_polls_its_source() {
    let source: Arc<dyn MessageSource<u32, String>> = Arc::new(Counter { next: AtomicU32::new(40) });
    let flow: Flow<u32, String> = Flow::new(source, FlowConfig::new("counter".to_string(), 8));
    assert_eq!(flow.config().get_name(), "counter");
    let (mut output, mut sender) = flow.open_output();
    let src = flow.source();
    assert_eq!(poll_source(&*src, &mut sender).ok(), Some(1));
    assert_eq!(poll_source(&*src, &mut sender).ok(), Some(1));
    assert_eq!(*output.broadcast_receiver_mut().try_recv().expect("first").payload(), 40);
    assert_eq!(*output.broadcast_receiver_mut().try_recv().expect("second").payload(), 41);
}

#[test]
fn base_flow_reports_source_failure() {
    let flow = Flow::new(Arc::new(Broken {}), FlowConfig::new("broken".to_string(), 2));
    let (_output, mut sender) = flow.open_output();
    match poll_source(&*flow.source(), &mut sender) {
        Err(RelayError::Source(e)) => assert_eq!(e, "source down"),
        _ => panic!("the failure is reported"),
    }
}
