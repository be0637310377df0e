//! Building blocks of message pipelines: messages, filters, flow
//! configurations, broadcast channels, and the decision procedures that drive
//! a flow's receive loop, a polling source and a pipeline's output table.
//!
//! `base` holds the simple flavour (a flow that polls one source directly);
//! `flow_core` holds the pipeline flavour (a broadcast source shared by many
//! filtered flows).
pub mod broadcast;
pub mod shared;
pub mod base;
pub mod flow_core;
