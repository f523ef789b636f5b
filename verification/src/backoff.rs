//! Exponential back-off between attempts to bring a device up.

use std::time::Duration;
use vstd::prelude::*;
use crate::duration::{as_nanos, duration_nanos, max_duration_nanos, scale};

verus! {

/// A waiting time that grows by a factor on every failure, up to a ceiling,
/// and falls back to its base on success.
pub struct Backoff {
    base: Duration,
    current: Duration,
    max: Duration,
}

impl Backoff {
    /// Length of the base waiting time, in nanoseconds.
    pub closed spec fn base_nanos(&self) -> nat {
        duration_nanos(self.base)
    }

    /// Length of the current waiting time, in nanoseconds.
    pub closed spec fn current_nanos(&self) -> nat {
        duration_nanos(self.current)
    }

    /// Length of the ceiling, in nanoseconds.
    pub closed spec fn max_nanos(&self) -> nat {
        duration_nanos(self.max)
    }

    /// A back-off that starts at `base` and never grows past `max`.
    pub fn new(base: Duration, max: Duration) -> (b: Self)
        ensures
            b.base_nanos() == duration_nanos(base),
            b.current_nanos() == duration_nanos(base),
            b.max_nanos() == duration_nanos(max),
    {
        Self { base, current: base, max }
    }

    /// Multiplies the current waiting time by `multiplier`, capped at the ceiling.
    pub fn multiply(&mut self, multiplier: u32)
        requires
            old(self).current_nanos() * multiplier <= max_duration_nanos(),
        ensures
            final(self).current_nanos() == if old(self).current_nanos() * multiplier
                <= old(self).max_nanos() {
                old(self).current_nanos() * multiplier
            } else {
                old(self).max_nanos() as int
            },
            final(self).current_nanos() <= final(self).max_nanos(),
            final(self).base_nanos() == old(self).base_nanos(),
            final(self).max_nanos() == old(self).max_nanos(),
    {
        let product = scale(self.current, multiplier);
        if as_nanos(&product) <= as_nanos(&self.max) {
            self.current = product;
        } else {
            self.current = self.max;
        }
    }

    /// Goes back to the base waiting time.
    pub fn reset(&mut self)
        ensures
            final(self).current_nanos() == old(self).base_nanos(),
            final(self).base_nanos() == old(self).base_nanos(),
            final(self).max_nanos() == old(self).max_nanos(),
    {
        self.current = self.base;
    }

    /// The current waiting time.
    pub fn get(&self) -> (d: Duration)
        ensures
            duration_nanos(d) == self.current_nanos(),
    {
        self.current
    }
}

} // verus!
