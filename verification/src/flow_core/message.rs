//! The unit of data that flows through a pipeline.
use vstd::prelude::*;

verus! {

/// A message carrying one payload.
#[derive(Clone)]
pub struct Message<T: Clone> {
    payload: T,
}

impl<T: Clone> Message<T> {
    /// The payload this message carries.
    pub closed spec fn payload_spec(&self) -> T {
        self.payload
    }

    /// Wraps `payload` in a message.
    pub fn new(payload: T) -> (m: Self)
        ensures
            m@ == payload,
    {
        Message { payload }
    }

    /// Borrows the payload.
    pub fn get_payload(&self) -> (p: &T)
        ensures
            *p == self@,
    {
        &self.payload
    }
}

impl<T: Clone> View for Message<T> {
    type V = T;

    open spec fn view(&self) -> T {
        self.payload_spec()
    }
}

} // verus!
