//! A flow's configuration and the builder that assembles one field by field.
use crate::flow_core::filter::Filter;
use crate::shared::clone_shared;
use std::fmt::Debug;
use std::sync::Arc;
use vstd::prelude::*;

verus! {

/// How a flow is set up: the capacity of its output channel, its name and
/// an optional filter.
#[verifier::reject_recursive_types(T)]
pub struct FlowConfig<T: Clone + Send + 'static + Sync + Debug> {
    messages_capacity: usize,
    name: String,
    filter: Option<Arc<dyn Filter<T>>>,
}

impl<T: Clone + Send + 'static + Sync + Debug> FlowConfig<T> {
    /// Capacity of the flow's output channel.
    pub closed spec fn capacity_spec(&self) -> usize {
        self.messages_capacity
    }

    /// The flow's name.
    pub closed spec fn name_spec(&self) -> Seq<char> {
        self.name@
    }

    /// The flow's filter, if it has one.
    pub closed spec fn filter_spec(&self) -> Option<Arc<dyn Filter<T>>> {
        self.filter
    }

    pub fn get_messages_capacity(&self) -> (c: usize)
        ensures
            c == self.capacity_spec(),
    {
        self.messages_capacity
    }

    pub fn get_name(&self) -> (n: String)
        ensures
            n@ == self.name_spec(),
    {
        self.name.clone()
    }

    /// Borrows the filter, if there is one.
    pub fn filter_ref(&self) -> (f: &Option<Arc<dyn Filter<T>>>)
        ensures
            *f == self.filter_spec(),
    {
        &self.filter
    }

    /// A handle on the same filter, if there is one.
    pub fn get_filter(&self) -> (f: Option<Arc<dyn Filter<T>>>)
        ensures
            f == self.filter_spec(),
    {
        clone_shared(&self.filter)
    }
}

/// A builder on which every field was set has nothing missing, so it builds;
/// otherwise the first unset field, in declaration order, is the one
/// reported.
pub proof fn law_builder_reports_first_unset<T: Clone + Send + 'static + Sync + Debug>(
    b: FlowConfigBuilder<T>,
)
    ensures
        (b.capacity_set() is Some && b.name_set() is Some && b.filter_set() is Some) <==> b.missing_field() is None,
        b.capacity_set() is None ==> b.missing_field() == Some("messages_capacity"),
        b.capacity_set() is Some && b.name_set() is None ==> b.missing_field() == Some("name"),
        b.capacity_set() is Some && b.name_set() is Some && b.filter_set() is None
            ==> b.missing_field() == Some("filter"),
{
}

/// Why a builder could not produce a configuration.
#[derive(Debug)]
pub enum FlowConfigBuilderError {
    /// The named field was never set.
    UninitializedField(&'static str),
    /// A custom validation failed (this configuration defines none).
    ValidationError(String),
}

/// Collects the fields of a [`FlowConfig`]; `build` tells whether each was set.
#[derive(Clone)]
#[verifier::reject_recursive_types(T)]
pub struct FlowConfigBuilder<T: Clone + Send + 'static + Sync + Debug> {
    messages_capacity: Option<usize>,
    name: Option<String>,
    filter: Option<Option<Arc<dyn Filter<T>>>>,
}

impl<T: Clone + Send + 'static + Sync + Debug> FlowConfigBuilder<T> {
    /// The capacity set so far.
    pub closed spec fn capacity_set(&self) -> Option<usize> {
        self.messages_capacity
    }

    /// The name set so far.
    pub closed spec fn name_set(&self) -> Option<Seq<char>> {
        match self.name {
            Some(n) => Some(n@),
            None => None,
        }
    }

    /// The filter choice set so far (`Some(None)`: explicitly no filter).
    pub closed spec fn filter_set(&self) -> Option<Option<Arc<dyn Filter<T>>>> {
        self.filter
    }

    /// The first field, in declaration order, that has not been set.
    pub open spec fn missing_field(&self) -> Option<&'static str> {
        if self.capacity_set() is None {
            Some("messages_capacity")
        } else if self.name_set() is None {
            Some("name")
        } else if self.filter_set() is None {
            Some("filter")
        } else {
            None
        }
    }

    pub fn messages_capacity(&mut self, value: usize) -> (r: &mut Self)
        ensures
            r.capacity_set() == Some(value),
            r.name_set() == old(self).name_set(),
            r.filter_set() == old(self).filter_set(),
            *final(self) == *final(r),
    {
        self.messages_capacity = Some(value);
        self
    }

    pub fn name(&mut self, value: String) -> (r: &mut Self)
        ensures
            r.capacity_set() == old(self).capacity_set(),
            r.name_set() == Some(value@),
            r.filter_set() == old(self).filter_set(),
            *final(self) == *final(r),
    {
        self.name = Some(value);
        self
    }

    pub fn filter(&mut self, value: Option<Arc<dyn Filter<T>>>) -> (r: &mut Self)
        ensures
            r.capacity_set() == old(self).capacity_set(),
            r.name_set() == old(self).name_set(),
            r.filter_set() == Some(value),
            *final(self) == *final(r),
    {
        self.filter = Some(value);
        self
    }

    /// Builds the configuration from the fields set so far, or names the
    /// first field (in declaration order) that was never set.
    pub fn build(&self) -> (r: Result<FlowConfig<T>, FlowConfigBuilderError>)
        ensures
            match self.missing_field() {
                Some(field) => r == Err::<FlowConfig<T>, _>(
                    FlowConfigBuilderError::UninitializedField(field),
                ),
                None => r matches Ok(c) && c.capacity_spec() == self.capacity_set().unwrap()
                    && Some(c.name_spec()) == self.name_set() && Some(c.filter_spec())
                    == self.filter_set(),
            },
    {
        let messages_capacity = match self.messages_capacity {
            Some(c) => c,
            None => {
                return Err(FlowConfigBuilderError::UninitializedField("messages_capacity"));
            },
        };
        let name = match &self.name {
            Some(n) => n.clone(),
            None => {
                return Err(FlowConfigBuilderError::UninitializedField("name"));
            },
        };
        let filter = match &self.filter {
            Some(f) => clone_shared(f),
            None => {
                return Err(FlowConfigBuilderError::UninitializedField("filter"));
            },
        };
        Ok(FlowConfig { messages_capacity, name, filter })
    }
}

impl<T: Clone + Send + 'static + Sync + Debug> Default for FlowConfigBuilder<T> {
    /// A builder with no field set.
    fn default() -> (b: Self)
        ensures
            b.capacity_set() is None,
            b.name_set() is None,
            b.filter_set() is None,
    {
        FlowConfigBuilder { messages_capacity: None, name: None, filter: None }
    }
}

} // verus!
