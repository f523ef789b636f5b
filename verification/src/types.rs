//! Values passed between the platform's tasks.

use std::time::Duration;
use vstd::prelude::*;

verus! {

/// A beat of the heartbeat: the wall-clock time since the Unix epoch.
#[derive(Debug, Clone, Copy)]
pub struct Tick {
    pub unix_time: Duration,
}

/// Data stamped with the beat at which it was taken.
#[derive(Debug, Clone)]
pub struct Timestamped<T> {
    pub timestamp: Tick,
    pub data: T,
}

impl<T> Timestamped<T> {
    /// `data` stamped with `timestamp`.
    pub fn new(timestamp: Tick, data: T) -> (t: Self)
        ensures
            t.timestamp == timestamp,
            t.data == data,
    {
        Self { timestamp, data }
    }
}

/// Data labeled with the sensor it came from.
#[derive(Debug, Clone)]
pub struct Labeled<T> {
    pub label: u8,
    pub data: T,
}

impl<T> Labeled<T> {
    /// `data` labeled `label`.
    pub fn new(label: u8, data: T) -> (l: Self)
        ensures
            l.label == label,
            l.data == data,
    {
        Self { label, data }
    }
}

} // verus!
