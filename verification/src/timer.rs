//! A stopwatch over a counter that somebody else reads.

use crate::fixed::Fixed;
use vstd::prelude::*;

verus! {

/// A stopwatch. It holds the reading of a counter at the moment it was
/// started; whoever asks for the time that has passed brings a new reading.
#[derive(Clone, Copy, Debug)]
pub struct Timer {
    /// The reading of the counter when the timer was started.
    pub last: u64,
}

impl Timer {
    /// Creates a new timer that starts at the reading `now`.
    pub fn new(now: u64) -> (t: Timer)
        ensures
            t.last == now,
    {
        Timer { last: now }
    }

    /// Returns the ticks elapsed from the start of the timer to the reading
    /// `now`, which must not lie before the start.
    pub fn elapsed(&self, now: u64) -> (ticks: u64)
        requires
            self.last <= now,
        ensures
            ticks == now - self.last,
    {
        now - self.last
    }

    /// Returns the time elapsed since the timer was started in seconds, for
    /// a counter that makes `frequency` ticks in a second.
    pub fn elapsed_seconds(&self, now: u64, frequency: u64) -> (secs: Fixed)
        requires
            self.last <= now,
        ensures
            secs == Fixed::ratio((now - self.last) as u64, frequency),
    {
        Fixed::ratio(self.elapsed(now), frequency)
    }

    /// Resets the timer: it starts again at the reading `now`.
    pub fn reset(&mut self, now: u64)
        ensures
            final(self).last == now,
    {
        self.last = now;
    }
}

} // verus!
