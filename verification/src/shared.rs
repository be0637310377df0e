//! Small facts about std's shared pointer that vstd does not state.
use std::sync::Arc;
use vstd::prelude::*;

verus! {

/// Calls `Clone::clone` on an `Option<Arc<A>>`. std documents that cloning
/// an `Arc` yields a pointer to the same allocation, and cloning an option
/// clones its content, so the copy equals its source as a value.
#[verifier::external_body]
pub(crate) fn clone_shared<A: ?Sized>(a: &Option<Arc<A>>) -> (r: Option<Arc<A>>)
    ensures
        r == *a,
{
    a.clone()
}

/// Calls `Arc::clone`: std documents that the clone points to the same
/// allocation, so it equals its source as a value.
#[verifier::external_body]
pub(crate) fn clone_arc<A: ?Sized>(a: &Arc<A>) -> (r: Arc<A>)
    ensures
        r == *a,
{
    Arc::clone(a)
}

} // verus!
