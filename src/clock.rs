//! Monotonic time in nanoseconds, and deadlines computed from it.
use vstd::prelude::*;

verus! {

/// Nanoseconds in one millisecond.
pub const NANOS_PER_MILLI: i64 = 1_000_000;

/// The absolute deadline `delay` nanoseconds after `now`; a deadline may
/// lie before the epoch.
pub open spec fn deadline_spec(now: u64, delay: i64) -> i128 {
    (now as int + delay as int) as i128
}

/// Relies on `time::precise_time_ns`: a reading of a high-resolution
/// monotonic counter, in nanoseconds since an unspecified epoch. Nothing is
/// known of the value it gives.
#[verifier::external_body]
pub fn now_ns() -> (r: u64) {
    time::precise_time_ns()
}

/// The deadline that lies `delay` nanoseconds after `now`.
pub fn deadline_after(now: u64, delay: i64) -> (r: i128)
    ensures
        r == deadline_spec(now, delay),
{
    now as i128 + delay as i128
}

/// A span of `n` milliseconds, in nanoseconds.
pub fn ms(n: i64) -> (r: i64)
    requires
        -9_223_372_036_854 <= n <= 9_223_372_036_854,
    ensures
        r == n * 1_000_000,
{
    n * NANOS_PER_MILLI
}

} // verus!
