//! The simple flavour: a flow that polls one message source on its own and
//! republishes what it gets on a broadcast channel.
pub mod message;
pub mod message_source;
pub mod config;
pub mod channel;
pub mod flow;
pub mod trigger;
