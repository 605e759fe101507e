//! Wall-clock measurement, and the conversion of an elapsed time into an
//! estimated cycle count.
use std::time::Duration;
use std::time::Instant;
use vstd::prelude::*;

verus! {

#[verifier::external_type_specification]
#[verifier::external_body]
pub struct ExInstant(Instant);

/// The estimated CPU clock, in cycles per nanosecond (a 4 GHz core).
pub const CYCLES_PER_NANO: u128 = 4;

/// `std::time::Instant::now`: reads the monotonic clock. Nothing is stated of
/// the instant it returns, which depends on when it is called.
#[verifier::external_body]
pub(crate) fn instant_now() -> Instant {
    Instant::now()
}

/// `std::time::Instant::elapsed`: the time since `start`. Nothing is stated of
/// it, since it depends on when it is called.
#[verifier::external_body]
pub(crate) fn instant_elapsed(start: &Instant) -> Duration {
    start.elapsed()
}

/// `std::time::Duration::as_nanos`: the whole number of nanoseconds in `d`.
/// `Duration` is opaque here, so nothing is stated of the number.
#[verifier::external_body]
pub(crate) fn duration_as_nanos(d: &Duration) -> u128 {
    d.as_nanos()
}

/// The cycles that `nanos` nanoseconds take at the estimated clock,
/// saturated at `u64::MAX`.
pub open spec fn spec_cycles_from_nanos(nanos: u128) -> u64 {
    if CYCLES_PER_NANO * nanos > u64::MAX {
        u64::MAX
    } else {
        (CYCLES_PER_NANO * nanos) as u64
    }
}

/// `cycles` is the estimate of some elapsed time.
pub open spec fn is_cycle_estimate(cycles: u64) -> bool {
    exists|nanos: u128| cycles == #[trigger] spec_cycles_from_nanos(nanos)
}

/// A longer elapsed time never gives fewer estimated cycles.
pub proof fn law_cycles_monotone(shorter: u128, longer: u128)
    requires
        shorter <= longer,
    ensures
        spec_cycles_from_nanos(shorter) <= spec_cycles_from_nanos(longer),
{
}

/// Converts an elapsed time in nanoseconds into estimated CPU cycles.
pub fn cycles_from_nanos(nanos: u128) -> (cycles: u64)
    ensures
        cycles == spec_cycles_from_nanos(nanos),
{
    if nanos > (u64::MAX as u128) / CYCLES_PER_NANO {
        u64::MAX
    } else {
        (nanos * CYCLES_PER_NANO) as u64
    }
}

/// Converts an elapsed time in nanoseconds into whole milliseconds.
pub fn millis_from_nanos(nanos: u128) -> (millis: u128)
    ensures
        millis == nanos / 1_000_000,
{
    nanos / 1_000_000
}

/// Nanoseconds elapsed since `start`, as the clock reports them.
pub(crate) fn nanos_since(start: &Instant) -> u128 {
    let d = instant_elapsed(start);
    duration_as_nanos(&d)
}

} // verus!
