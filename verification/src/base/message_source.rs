//! Where a flow gets its messages from.
use crate::base::message::Message;
use std::fmt::Debug;
use vstd::prelude::*;

verus! {

/// Produces messages on demand, or fails with an error of type `E`.
///
/// Implemented by users of the library; nothing is assumed about what an
/// implementation returns.
pub trait MessageSource<T: Clone + Debug + Send + 'static, E>: Send + Sync {
    fn receive(&self) -> Result<Message<T>, E>;
}

} // verus!
