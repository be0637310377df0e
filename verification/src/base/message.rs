//! The unit of data a flow carries.
use std::fmt::Debug;
use vstd::prelude::*;

verus! {

/// A message carrying one payload.
#[derive(Clone, Debug)]
pub struct Message<T: Clone + Debug> {
    payload: T,
}

impl<T: Clone + Debug> Message<T> {
    /// The payload this message carries.
    pub closed spec fn payload_spec(&self) -> T {
        self.payload
    }

    /// Wraps `payload` in a message.
    pub fn new(payload: T) -> (m: Self)
        ensures
            m@ == payload,
    {
        Self { payload }
    }

    /// Borrows the payload.
    pub fn payload(&self) -> (p: &T)
        ensures
            *p == self@,
    {
        &self.payload
    }
}

impl<T: Clone + Debug> View for Message<T> {
    type V = T;

    open spec fn view(&self) -> T {
        self.payload_spec()
    }
}

} // verus!
