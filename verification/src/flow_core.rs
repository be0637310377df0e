//! The pipeline flavour: flows subscribe to a shared broadcast source, filter
//! what they receive and republish it on their own output channel.
pub mod message;
pub mod filter;
pub mod config;
pub mod channel;
pub mod flow;
pub mod pipeline;
pub mod broadcast_source;
