//! Reading the time.
//!
//! The simulation counts time in whole milliseconds from a starting instant.
//! Nothing is known of what a clock returns; the rules that depend on time take
//! the reading as an argument.

use vstd::prelude::*;
use std::time::{Duration, Instant};

verus! {

/// [`std::time::Instant`], a reading of the monotonic clock. Its contents are
/// hidden.
#[verifier::external_type_specification]
#[verifier::external_body]
pub struct ExInstant(std::time::Instant);

/// [`std::time::Instant::now`] reads the clock. Nothing is claimed of the
/// reading.
pub assume_specification[ std::time::Instant::now ]() -> (instant: Instant)
;

/// [`std::time::Instant::elapsed`] gives the time that has passed since the
/// instant was taken. Nothing is claimed of the amount.
pub assume_specification[ std::time::Instant::elapsed ](instant: &Instant) -> (passed: Duration)
;

/// [`std::time::Duration::as_millis`] gives the whole milliseconds in a
/// duration. Nothing is claimed of the number.
pub assume_specification[ std::time::Duration::as_millis ](duration: &Duration) -> (millis: u128)
;

/// A count of milliseconds as a `u64`, held at `u64::MAX` where it no longer
/// fits.
pub open spec fn spec_saturate(millis: u128) -> u64 {
    if millis > u64::MAX {
        u64::MAX
    } else {
        millis as u64
    }
}

/// A count of milliseconds as a `u64`, held at `u64::MAX` where it no longer
/// fits.
pub fn saturate(millis: u128) -> (held: u64)
    ensures
        held == spec_saturate(millis),
{
    if millis > u64::MAX as u128 {
        u64::MAX
    } else {
        millis as u64
    }
}

/// The whole milliseconds that have passed since `start`, as the clock gives
/// them now, held at `u64::MAX` where they no longer fit.
pub fn millis_since(start: &Instant) -> (millis: u64) {
    let passed = start.elapsed();
    saturate(passed.as_millis())
}

/// The time from `since` to `now`, taken as nothing where `now` is the earlier
/// of the two.
pub open spec fn spec_elapsed(since: u64, now: u64) -> int {
    if now >= since {
        now - since
    } else {
        0
    }
}

/// The time from `since` to `now`, taken as nothing where `now` is the earlier
/// of the two.
pub fn elapsed(since: u64, now: u64) -> (passed: u64)
    ensures
        passed == spec_elapsed(since, now),
{
    if now >= since {
        now - since
    } else {
        0
    }
}

} // verus!
