//! Event-loop pacing.

use vstd::prelude::*;

verus! {

/// Holds the tick rate of the event loop, in milliseconds.
#[derive(Clone, Copy, Debug, PartialEq, Eq, Structural)]
pub struct EventHandler {
    pub tick_rate_ms: u64,
}

impl EventHandler {
    pub fn new(tick_rate_ms: u64) -> (r: Self)
        ensures
            r.tick_rate_ms == tick_rate_ms,
    {
        EventHandler { tick_rate_ms }
    }
}

impl Default for EventHandler {
    /// The default pace: a tick every 250 milliseconds.
    fn default() -> (r: Self)
        ensures
            r.tick_rate_ms == 250,
    {
        EventHandler::new(250)
    }
}

} // verus!
