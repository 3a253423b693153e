//! Arithmetic on `std::time::Duration` as the backoff logic uses it, stated over
//! the total number of nanoseconds a duration holds.

use std::time::Duration;
use vstd::prelude::*;

verus! {

/// Nanoseconds in one second.
pub open spec fn nanos_per_sec() -> int {
    1_000_000_000
}

/// The largest length a `Duration` can hold, in nanoseconds:
/// `u64::MAX` whole seconds and `999_999_999` nanoseconds.
pub open spec fn max_duration_nanos() -> int {
    u64::MAX * nanos_per_sec() + (nanos_per_sec() - 1)
}

/// `nanos * factor`, or the largest duration where the product does not fit.
pub open spec fn saturating_scaled_nanos(nanos: int, factor: int) -> int {
    if nanos * factor > max_duration_nanos() {
        max_duration_nanos()
    } else {
        nanos * factor
    }
}

/// What `Duration::as_nanos` returns for `d`: the total number of whole
/// nanoseconds that `d` holds.
pub uninterp spec fn duration_as_nanos(d: Duration) -> u128;

/// Calls `Duration::as_nanos`. Its documentation: the total number of whole
/// nanoseconds the duration holds. A duration holds at most `u64::MAX` seconds
/// and fewer than `10^9` further nanoseconds (`subsec_nanos` is documented to be
/// below one billion), so the count is at most `max_duration_nanos()`.
#[verifier::external_body]
pub(crate) fn duration_total_nanos(d: &Duration) -> (nanos: u128)
    ensures
        nanos == duration_as_nanos(*d),
        nanos <= max_duration_nanos(),
{
    d.as_nanos()
}

/// Calls `Duration::from_secs`. Its documentation: the new duration holds
/// `secs` whole seconds, so `secs * 10^9` nanoseconds.
#[verifier::external_body]
pub(crate) fn duration_from_secs(secs: u64) -> (d: Duration)
    ensures
        duration_as_nanos(d) == secs * nanos_per_sec(),
{
    Duration::from_secs(secs)
}

/// Calls `Duration::from_millis`. Its documentation: the new duration holds
/// `millis` milliseconds, so `millis * 10^6` nanoseconds.
#[verifier::external_body]
pub(crate) fn duration_from_millis(millis: u64) -> (d: Duration)
    ensures
        duration_as_nanos(d) == millis * 1_000_000,
{
    Duration::from_millis(millis)
}

/// Calls `Duration::saturating_mul`. Its documentation: computes `d * factor`,
/// returning `Duration::MAX` (`u64::MAX` seconds and `999_999_999` nanoseconds)
/// where the product does not fit in a `Duration`.
#[verifier::external_body]
pub(crate) fn duration_saturating_mul(d: Duration, factor: u32) -> (r: Duration)
    ensures
        duration_as_nanos(r) == saturating_scaled_nanos(duration_as_nanos(d) as int, factor as int),
{
    d.saturating_mul(factor)
}

/// Calls `Ord::min` on two durations, which are ordered by their length. Its
/// documentation: returns the smaller value, and the first argument where the
/// two compare equal.
#[verifier::external_body]
pub(crate) fn duration_min(a: Duration, b: Duration) -> (r: Duration)
    ensures
        r == (if duration_as_nanos(b) < duration_as_nanos(a) { b } else { a }),
{
    a.min(b)
}

/// `Clone::clone` on a `Duration`, which is `Copy`: the clone is the same value.
pub assume_specification[ <Duration as Clone>::clone ](d: &Duration) -> (r: Duration)
    ensures
        r == *d,
;

} // verus!
