//! Wait time (WTIME) and integration time (ATIME, ASTEP) of the AS7341.

use std::time::Duration;
use vstd::prelude::*;
use crate::duration::{as_nanos, duration_nanos, from_nanos};

verus! {

/// One step of the wait time register: 2.78 ms.
pub const WAIT_TIME_STEP_NANOS: u64 = 2_780_000;

/// 256 steps of the wait time, 711.68 ms: the bound that every wait stays
/// below, since WTIME holds at most 255 steps (709.9 ms).
pub const MAX_WAIT_TIME_NANOS: u64 = 711_680_000;

/// One step of the integration time: 2.78 us.
pub const INTEGRATION_TIME_STEP_NANOS: u64 = 2_780;

/// Longest integration time with ATIME at zero: 65535 steps, 182.1873 ms.
pub const MAX_INTEGRATION_TIME_NANOS: u64 = 182_187_300;

/// The WTIME value that a wait of `nanos` nanoseconds is stored as: the number
/// of whole steps.
pub open spec fn wait_raw_for_nanos(nanos: nat) -> nat {
    nanos / (WAIT_TIME_STEP_NANOS as nat)
}

/// The wait that a WTIME value stands for, in nanoseconds.
pub open spec fn wait_nanos_of_raw(raw: u8) -> nat {
    (raw as nat) * (WAIT_TIME_STEP_NANOS as nat)
}

/// The ASTEP value that an integration time of `nanos` nanoseconds is stored
/// as, with ATIME at zero: one less than the number of whole steps.
pub open spec fn astep_for_nanos(nanos: nat) -> int {
    nanos / (INTEGRATION_TIME_STEP_NANOS as nat) - 1
}

/// The integration time that ATIME and ASTEP stand for, in nanoseconds:
/// (ATIME + 1) * (ASTEP + 1) steps.
pub open spec fn integration_nanos(atime: u8, astep: u16) -> nat {
    (INTEGRATION_TIME_STEP_NANOS as nat) * ((astep as nat) + 1) * ((atime as nat) + 1)
}

/// Both a wait time and an integration time, as the sensor is configured with.
pub struct TimingSettings {
    pub wait_time: WaitTime,
    pub integration_time: IntegrationTime,
}

impl TimingSettings {
    /// Settings for the given integration and wait durations.
    pub fn new(integration_duration: Duration, wait_time_duration: Duration) -> (s: Self)
        requires
            2 * INTEGRATION_TIME_STEP_NANOS <= duration_nanos(integration_duration)
                <= MAX_INTEGRATION_TIME_NANOS,
            WAIT_TIME_STEP_NANOS <= duration_nanos(wait_time_duration) < MAX_WAIT_TIME_NANOS,
        ensures
            1 <= s.wait_time.raw_value(),
            s.wait_time.raw_value() == wait_raw_for_nanos(duration_nanos(wait_time_duration)),
            s.integration_time.atime_value() == 0,
            s.integration_time.astep_value() == astep_for_nanos(
                duration_nanos(integration_duration),
            ),
    {
        Self {
            wait_time: WaitTime::from_duration(wait_time_duration),
            integration_time: IntegrationTime::from_duration(integration_duration),
        }
    }
}

/// Time between two measurements, in steps of 2.78 ms.
#[derive(Debug, Clone, Copy, PartialEq, Eq, Structural)]
pub struct WaitTime {
    raw_wait_time: u8,
}

impl WaitTime {
    /// The WTIME register value.
    pub closed spec fn raw_value(&self) -> u8 {
        self.raw_wait_time
    }

    /// The wait time for a duration of at least 2.78 ms and below 711.68 ms
    /// (1 to 255 steps), rounded down to whole steps.
    pub fn from_duration(duration: Duration) -> (w: Self)
        requires
            WAIT_TIME_STEP_NANOS <= duration_nanos(duration) < MAX_WAIT_TIME_NANOS,
        ensures
            1 <= w.raw_value(),
            w.raw_value() == wait_raw_for_nanos(duration_nanos(duration)),
    {
        let nanos = as_nanos(&duration);
        let steps = nanos / (WAIT_TIME_STEP_NANOS as u128);
        assert(1 <= steps <= 255) by (nonlinear_arith)
            requires
                WAIT_TIME_STEP_NANOS <= nanos < MAX_WAIT_TIME_NANOS,
                steps == nanos / (WAIT_TIME_STEP_NANOS as u128),
        ;
        Self { raw_wait_time: steps as u8 }
    }

    /// The wait time with the given WTIME value.
    pub fn from_raw(value: u8) -> (w: Self)
        ensures
            w.raw_value() == value,
    {
        Self { raw_wait_time: value }
    }

    /// The WTIME value.
    pub fn into_raw(self) -> (r: u8)
        ensures
            r == self.raw_value(),
    {
        self.raw_wait_time
    }

    /// The wait this stands for.
    pub fn into_duration(self) -> (d: Duration)
        ensures
            duration_nanos(d) == wait_nanos_of_raw(self.raw_value()),
    {
        from_nanos(WAIT_TIME_STEP_NANOS * (self.raw_wait_time as u64))
    }
}

/// Integration time of a measurement: (ATIME + 1) * (ASTEP + 1) steps of 2.78 us.
#[derive(Debug, Clone, Copy, PartialEq, Eq, Structural)]
pub struct IntegrationTime {
    atime: u8,
    astep: u16,
}

impl IntegrationTime {
    /// The ATIME register value.
    pub closed spec fn atime_value(&self) -> u8 {
        self.atime
    }

    /// The ASTEP register value.
    pub closed spec fn astep_value(&self) -> u16 {
        self.astep
    }

    /// Integration time from ATIME and ASTEP; they may not both be zero, and
    /// ASTEP may not be 65535 (reserved).
    pub fn new(atime: u8, astep: u16) -> (t: IntegrationTime)
        requires
            atime != 0 || astep != 0,
            astep != u16::MAX,
        ensures
            t.atime_value() == atime,
            t.astep_value() == astep,
    {
        Self { atime, astep }
    }

    /// The integration time for a duration between 5.56 us and 182.1873 ms,
    /// with ATIME at zero and ASTEP rounded down to whole steps.
    pub fn from_duration(duration: Duration) -> (t: Self)
        requires
            duration_nanos(duration) <= MAX_INTEGRATION_TIME_NANOS,
            2 * INTEGRATION_TIME_STEP_NANOS <= duration_nanos(duration),
        ensures
            t.atime_value() == 0,
            t.astep_value() == astep_for_nanos(duration_nanos(duration)),
    {
        let atime: u8 = 0;
        let nanos = as_nanos(&duration);
        let quotient = nanos / (INTEGRATION_TIME_STEP_NANOS as u128);
        assert(2 <= quotient <= 65535) by (nonlinear_arith)
            requires
                2 * INTEGRATION_TIME_STEP_NANOS <= nanos <= MAX_INTEGRATION_TIME_NANOS,
                quotient == nanos / (INTEGRATION_TIME_STEP_NANOS as u128),
        ;
        let steps = quotient as u32;
        let divisor = atime as u32 + 1;
        assert(divisor == 1);
        let astep_plus_1 = (steps / divisor) as u16;
        assert(astep_plus_1 == steps);
        let astep = astep_plus_1.saturating_sub(1);
        IntegrationTime::new(atime, astep)
    }

    /// The integration time this stands for.
    pub fn into_duration(self) -> (d: Duration)
        ensures
            duration_nanos(d) == integration_nanos(self.atime_value(), self.astep_value()),
    {
        let astep_plus_1 = self.astep as u64 + 1;
        let atime_plus_1 = self.atime as u64 + 1;
        assert(INTEGRATION_TIME_STEP_NANOS * astep_plus_1 * atime_plus_1 <= 2780 * 65536 * 256)
            by (nonlinear_arith)
            requires
                astep_plus_1 <= 65536,
                atime_plus_1 <= 256,
        ;
        from_nanos(INTEGRATION_TIME_STEP_NANOS * astep_plus_1 * atime_plus_1)
    }

    /// The ASTEP value.
    pub fn astep(&self) -> (a: u16)
        ensures
            a == self.astep_value(),
    {
        self.astep
    }

    /// The ATIME value.
    pub fn atime(&self) -> (a: u8)
        ensures
            a == self.atime_value(),
    {
        self.atime
    }
}

/// A wait time that `WaitTime::from_duration` accepts comes back from its
/// WTIME value rounded down to a whole number of 2.78 ms steps.
pub proof fn lemma_wait_time_rounds_down(nanos: nat)
    requires
        WAIT_TIME_STEP_NANOS <= nanos < MAX_WAIT_TIME_NANOS,
    ensures
        1 <= wait_raw_for_nanos(nanos) <= 255,
        wait_nanos_of_raw(wait_raw_for_nanos(nanos) as u8) <= nanos,
        nanos < wait_nanos_of_raw(wait_raw_for_nanos(nanos) as u8) + WAIT_TIME_STEP_NANOS,
{
    let steps = nanos / (WAIT_TIME_STEP_NANOS as nat);
    assert(1 <= steps <= 255 && steps * (WAIT_TIME_STEP_NANOS as nat) <= nanos < steps * (
    WAIT_TIME_STEP_NANOS as nat) + WAIT_TIME_STEP_NANOS) by (nonlinear_arith)
        requires
            WAIT_TIME_STEP_NANOS <= nanos < MAX_WAIT_TIME_NANOS,
            steps == nanos / (WAIT_TIME_STEP_NANOS as nat),
    ;
    assert((steps as u8) as nat == steps);
}

/// An integration time that `IntegrationTime::from_duration` accepts comes
/// back from its register values rounded down to a whole number of 2.78 us
/// steps, and those values are valid for `IntegrationTime::new`.
pub proof fn lemma_integration_time_rounds_down(nanos: nat)
    requires
        2 * INTEGRATION_TIME_STEP_NANOS <= nanos <= MAX_INTEGRATION_TIME_NANOS,
    ensures
        1 <= astep_for_nanos(nanos) < u16::MAX,
        integration_nanos(0, astep_for_nanos(nanos) as u16) <= nanos,
        nanos < integration_nanos(0, astep_for_nanos(nanos) as u16) + INTEGRATION_TIME_STEP_NANOS,
{
    let steps = nanos / (INTEGRATION_TIME_STEP_NANOS as nat);
    assert(steps * (INTEGRATION_TIME_STEP_NANOS as nat) <= nanos < steps * (
    INTEGRATION_TIME_STEP_NANOS as nat) + INTEGRATION_TIME_STEP_NANOS) by (nonlinear_arith)
        requires
            steps == nanos / (INTEGRATION_TIME_STEP_NANOS as nat),
    ;
    assert(2 <= steps <= 65535) by (nonlinear_arith)
        requires
            2 * INTEGRATION_TIME_STEP_NANOS <= nanos <= MAX_INTEGRATION_TIME_NANOS,
            steps == nanos / (INTEGRATION_TIME_STEP_NANOS as nat),
    ;
    let astep = astep_for_nanos(nanos);
    assert(astep == steps - 1);
    assert((astep as u16) as nat == steps - 1);
    assert(integration_nanos(0, astep as u16) == (INTEGRATION_TIME_STEP_NANOS as nat) * steps)
        by (nonlinear_arith)
        requires
            (astep as u16) as nat == steps - 1,
    ;
}

} // verus!
