//! A flow's configuration.
use vstd::prelude::*;

verus! {

/// The name of a flow and the capacity of its output channel.
pub struct FlowConfig {
    messages_capacity: usize,
    name: String,
}

impl FlowConfig {
    /// Capacity of the flow's output channel.
    pub closed spec fn capacity_spec(&self) -> usize {
        self.messages_capacity
    }

    /// The flow's name.
    pub closed spec fn name_spec(&self) -> Seq<char> {
        self.name@
    }

    pub fn new(name: String, messages_capacity: usize) -> (c: Self)
        ensures
            c.name_spec() == name@,
            c.capacity_spec() == messages_capacity,
    {
        Self { name, messages_capacity }
    }

    pub fn get_messages_capacity(&self) -> (c: usize)
        ensures
            c == self.capacity_spec(),
    {
        self.messages_capacity
    }

    pub fn get_name(&self) -> (n: String)
        ensures
            n@ == self.name_spec(),
    {
        self.name.clone()
    }
}

} // verus!
