//! When a source is polled.
use std::time::Duration;
use vstd::prelude::*;

verus! {

/// Fires once per interval.
pub struct IntervalTrigger {
    duration: Duration,
}

impl IntervalTrigger {
    /// The interval.
    pub closed spec fn duration_spec(&self) -> Duration {
        self.duration
    }

    pub fn new(duration: Duration) -> (t: Self)
        ensures
            t.duration_spec() == duration,
    {
        Self { duration }
    }

    pub fn duration(&self) -> (d: Duration)
        ensures
            d == self.duration_spec(),
    {
        self.duration
    }
}

} // verus!
