//! One-shot countdown timers advanced by the simulation tick.

use vstd::prelude::*;
use crate::fixed::{fx_sub, fx_sub_spec};

verus! {

/// A one-shot countdown: started with its full waiting time, it expires on the
/// first tick at which no time remains, and then stops.
#[derive(Clone, Copy, Debug, PartialEq, Eq, Structural)]
pub struct Countdown {
    /// The time a freshly started countdown runs for.
    pub wait: i64,
    /// The time left while running.
    pub remaining: i64,
    pub running: bool,
}

/// The countdown after `start`.
pub open spec fn started(c: Countdown) -> Countdown {
    Countdown { wait: c.wait, remaining: c.wait, running: true }
}

/// Whether a tick of length `delta` makes the countdown expire.
pub open spec fn expires(c: Countdown, delta: i64) -> bool {
    c.running && fx_sub_spec(c.remaining, delta) <= 0
}

/// The countdown after a tick of length `delta`.
pub open spec fn ticked(c: Countdown, delta: i64) -> Countdown {
    if !c.running {
        c
    } else {
        Countdown {
            wait: c.wait,
            remaining: fx_sub_spec(c.remaining, delta),
            running: fx_sub_spec(c.remaining, delta) > 0,
        }
    }
}

impl Countdown {
    /// A stopped countdown with the given waiting time.
    pub fn new(wait: i64) -> (r: Countdown)
        ensures
            r == (Countdown { wait, remaining: 0, running: false }),
    {
        Countdown { wait, remaining: 0, running: false }
    }

    /// Starts, or restarts, the countdown from its full waiting time.
    pub fn start(&mut self)
        ensures
            *final(self) == started(*old(self)),
    {
        self.remaining = self.wait;
        self.running = true;
    }

    /// Advances the countdown by `delta` and reports whether it expired.
    pub fn tick(&mut self, delta: i64) -> (expired: bool)
        ensures
            *final(self) == ticked(*old(self), delta),
            expired == expires(*old(self), delta),
    {
        if !self.running {
            return false;
        }
        self.remaining = fx_sub(self.remaining, delta);
        if self.remaining <= 0 {
            self.running = false;
            true
        } else {
            false
        }
    }
}

} // verus!
