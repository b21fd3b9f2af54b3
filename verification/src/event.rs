//! How often the interface wakes up when no input arrives.
use std::time::Duration;

use vstd::prelude::*;

verus! {

pub struct EventHandler {
    tick_rate: Duration,
}

impl EventHandler {
    /// The time the handler waits for input before reporting a tick.
    pub closed spec fn spec_tick_rate(&self) -> Duration {
        self.tick_rate
    }

    pub fn new(tick_rate: Duration) -> (r: Self)
        ensures
            r.spec_tick_rate() == tick_rate,
    {
        EventHandler { tick_rate }
    }

    pub fn tick_rate(&self) -> (r: Duration)
        ensures
            r == self.spec_tick_rate(),
    {
        self.tick_rate
    }
}

} // verus!
