//! Lengths of `std::time::Duration` values, counted in nanoseconds.

use std::time::Duration;
use vstd::prelude::*;

verus! {

/// The length of a duration in nanoseconds: what `Duration::as_nanos` returns for it.
pub uninterp spec fn duration_nanos(d: Duration) -> nat;

/// Nanoseconds in one second.
pub open spec fn nanos_per_sec() -> nat {
    1_000_000_000
}

/// The length of `Duration::MAX` in nanoseconds (`u64::MAX` seconds and
/// 999 999 999 nanoseconds).
pub open spec fn max_duration_nanos() -> nat {
    (u64::MAX as nat) * nanos_per_sec() + 999_999_999
}

/// Calls `Duration::as_nanos`: the total number of whole nanoseconds in `d`.
#[verifier::external_body]
pub(crate) fn as_nanos(d: &Duration) -> (n: u128)
    ensures
        n == duration_nanos(*d),
{
    d.as_nanos()
}

/// Calls `Duration::from_nanos`: a duration of exactly `n` nanoseconds.
#[verifier::external_body]
pub(crate) fn from_nanos(n: u64) -> (d: Duration)
    ensures
        duration_nanos(d) == n,
{
    Duration::from_nanos(n)
}

/// Calls `Duration * u32` (`Mul::mul`), which panics on overflow past
/// `Duration::MAX`; the result is `m` times as long as `d`.
#[verifier::external_body]
pub(crate) fn scale(d: Duration, m: u32) -> (r: Duration)
    requires
        duration_nanos(d) * m <= max_duration_nanos(),
    ensures
        duration_nanos(r) == duration_nanos(d) * m,
{
    d * m
}

} // verus!
