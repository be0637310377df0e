//! User-supplied predicates that decide which messages a flow passes on.
use crate::flow_core::message::Message;
use std::fmt::Debug;
use std::sync::Arc;
use vstd::prelude::*;

verus! {

/// Decides whether a message may pass through a flow.
///
/// Implemented by users of the library. An implementation decides by the
/// message alone: `admits` is that condition, and `filter` answers it.
pub trait Filter<T: Clone + Send + 'static + Sync + Debug>: Send + Sync {
    /// Whether this filter lets `message` through.
    spec fn admits(&self, message: Message<T>) -> bool;

    fn filter(&self, message: &Message<T>) -> (b: bool)
        ensures
            b == self.admits(*message),
    ;
}

/// Whether a flow with `filter` passes `message` on: always without a
/// filter, otherwise when the filter admits it.
pub open spec fn admitted<T: Clone + Send + 'static + Sync + Debug>(
    filter: Option<Arc<dyn Filter<T>>>,
    message: Message<T>,
) -> bool {
    match filter {
        Some(f) => f.admits(message),
        None => true,
    }
}

} // verus!
