//! Reading time. The rest of the library takes time as plain numbers; this
//! module is where those numbers come from in a running process.

use vstd::prelude::*;
use std::time::Duration;
use std::time::Instant;

verus! {

/// Nanoseconds in one second.
pub const NANOS_PER_SEC: u64 = 1_000_000_000;

/// Nanoseconds in one millisecond.
pub const NANOS_PER_MILLI: u64 = 1_000_000;

/// A point on the monotonic clock, opaque to the verifier.
#[verifier::external_type_specification]
#[verifier::external_body]
pub struct ExInstant(Instant);

/// The current point on the monotonic clock.
///
/// Trusted: stands for `Instant::now`. Nothing is claimed of the result.
#[verifier::external_body]
fn instant_now() -> Instant {
    Instant::now()
}

/// The time that has passed since `start`.
///
/// Trusted: stands for `Instant::elapsed`. Nothing is claimed of the result.
#[verifier::external_body]
fn elapsed_since(start: &Instant) -> Duration {
    start.elapsed()
}

/// The whole nanoseconds in `span`.
///
/// Trusted: stands for `Duration::as_nanos`. Nothing is claimed of the result.
#[verifier::external_body]
fn whole_nanos(span: &Duration) -> u128 {
    span.as_nanos()
}

/// Seconds since the Unix epoch on the wall clock.
///
/// Trusted: stands for `chrono::Utc::now` followed by `DateTime::timestamp`.
/// Nothing is claimed of the result. The call panics only when the system
/// clock reads a time before 1970, or one beyond the years that `chrono` can
/// name.
#[verifier::external_body]
fn wall_clock_seconds() -> i64 {
    chrono::Utc::now().timestamp()
}

/// One reading of both clocks.
#[derive(Clone, Copy, Debug, PartialEq, Eq)]
pub struct Moment {
    /// Monotonic time, in nanoseconds since the clock was started.
    pub now: u64,
    /// Wall-clock time, in seconds since the Unix epoch.
    pub timestamp: i64,
}

/// A monotonic clock that counts nanoseconds from the moment it was made.
/// Copies of a clock count from the same moment.
#[derive(Clone, Copy, Debug)]
pub struct Clock {
    origin: Instant,
}

impl Clock {
    /// Starts a clock at the present moment.
    pub fn new() -> Clock {
        Clock { origin: instant_now() }
    }

    /// Nanoseconds since the clock was started, held at `u64::MAX` once the
    /// count no longer fits.
    pub fn now(&self) -> u64 {
        let span = elapsed_since(&self.origin);
        let nanos: u128 = whole_nanos(&span);
        hold_at_max(nanos)
    }

    /// Reads the monotonic and the wall clock together: the monotonic clock
    /// as [`Clock::now`] reads it, the wall clock in seconds since the Unix
    /// epoch. Nothing is promised of either number: what a clock shows is
    /// not the library's to decide, and every function that takes a moment
    /// is proved for every moment.
    pub fn read(&self) -> Moment {
        Moment { now: self.now(), timestamp: wall_clock_seconds() }
    }
}

/// A count of nanoseconds as the library keeps it: the count itself while it
/// fits into 64 bits, and `u64::MAX` from there on.
pub open spec fn held_at_max(nanos: u128) -> u64 {
    if nanos > u64::MAX {
        u64::MAX
    } else {
        nanos as u64
    }
}

/// Computes [`held_at_max`]: what [`Clock::now`] makes of the nanoseconds
/// that the system clock counted.
pub fn hold_at_max(nanos: u128) -> (held: u64)
    ensures
        held == held_at_max(nanos),
{
    if nanos > u64::MAX as u128 {
        u64::MAX
    } else {
        nanos as u64
    }
}

/// Whole milliseconds from `started` to `now` on the monotonic clock; zero
/// when `now` is not after `started`.
pub open spec fn elapsed_millis(started: u64, now: u64) -> nat {
    if now >= started {
        ((now - started) / (NANOS_PER_MILLI as int)) as nat
    } else {
        0
    }
}

/// Computes [`elapsed_millis`].
pub fn millis_between(started: u64, now: u64) -> (ms: u128)
    ensures
        ms == elapsed_millis(started, now),
{
    if now >= started {
        ((now - started) / NANOS_PER_MILLI) as u128
    } else {
        0
    }
}

} // verus!
