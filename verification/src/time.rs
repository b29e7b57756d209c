//! `std::time::Duration` seen through its whole seconds and sub-second
//! nanoseconds.

use std::time::Duration;
use vstd::prelude::*;

verus! {

/// The whole seconds of a `Duration` (`Duration::as_secs`).
pub uninterp spec fn duration_secs(d: Duration) -> u64;

/// The fractional part of a `Duration` in nanoseconds (`Duration::subsec_nanos`).
pub uninterp spec fn duration_subsec_nanos(d: Duration) -> u32;

pub const NANOS_PER_SEC: u64 = 1_000_000_000;

/// The length of a `Duration` in nanoseconds.
pub open spec fn duration_nanos(d: Duration) -> int {
    duration_secs(d) as int * NANOS_PER_SEC as int + duration_subsec_nanos(d) as int
}

/// Calls `Duration::as_secs`; the result is the duration's whole seconds.
#[verifier::external_body]
pub fn duration_as_secs(d: &Duration) -> (s: u64)
    ensures
        s == duration_secs(*d),
{
    d.as_secs()
}

/// Calls `Duration::subsec_nanos`; the documentation states that the value is
/// always below one billion.
#[verifier::external_body]
pub fn duration_subsec(d: &Duration) -> (n: u32)
    ensures
        n == duration_subsec_nanos(*d),
        n < NANOS_PER_SEC,
{
    d.subsec_nanos()
}

/// Calls `Duration::new` with a nanosecond part below one billion, which
/// neither carries nor panics: the result has exactly these parts.
#[verifier::external_body]
pub fn duration_new(secs: u64, nanos: u32) -> (d: Duration)
    requires
        nanos < NANOS_PER_SEC,
    ensures
        duration_secs(d) == secs,
        duration_subsec_nanos(d) == nanos,
{
    Duration::new(secs, nanos)
}

} // verus!

verus! {

#[verifier::external_type_specification]
#[verifier::external_body]
pub struct ExInstant(std::time::Instant);

#[verifier::external_type_specification]
#[verifier::external_body]
pub struct ExSystemTime(std::time::SystemTime);

/// Whether instant `a` is earlier than instant `b` (`Instant`'s `<`).
pub uninterp spec fn instant_before(a: std::time::Instant, b: std::time::Instant) -> bool;

/// The time from `earlier` to `later`, zero when `earlier` is the later one
/// (`Instant::duration_since`).
pub uninterp spec fn instant_gap(later: std::time::Instant, earlier: std::time::Instant) -> Duration;

/// `i` moved forward by `d`, or none when that is not representable
/// (`Instant::checked_add`).
pub uninterp spec fn instant_plus(i: std::time::Instant, d: Duration) -> Option<std::time::Instant>;

/// Calls `Instant::now`; nothing is known of the result.
#[verifier::external_body]
pub fn instant_now() -> std::time::Instant {
    std::time::Instant::now()
}

/// Compares two instants with `<`.
#[verifier::external_body]
pub fn instant_lt(a: &std::time::Instant, b: &std::time::Instant) -> (r: bool)
    ensures
        r == instant_before(*a, *b),
{
    *a < *b
}

/// Calls `Instant::duration_since`, which saturates at zero.
#[verifier::external_body]
pub fn instant_duration_since(later: &std::time::Instant, earlier: &std::time::Instant) -> (d: Duration)
    ensures
        d == instant_gap(*later, *earlier),
{
    later.duration_since(*earlier)
}

/// Calls `Instant::checked_add`.
#[verifier::external_body]
pub fn instant_checked_add(i: &std::time::Instant, d: &Duration) -> (r: Option<std::time::Instant>)
    ensures
        r == instant_plus(*i, *d),
{
    i.checked_add(*d)
}

/// Compares two system times with `==`, which compares their values.
#[verifier::external_body]
pub fn system_time_eq(a: &std::time::SystemTime, b: &std::time::SystemTime) -> (r: bool)
    ensures
        r == (*a == *b),
{
    *a == *b
}

/// Whether `a` is shorter than `b`.
pub fn duration_lt(a: &Duration, b: &Duration) -> (r: bool)
    ensures
        r == (duration_nanos(*a) < duration_nanos(*b)),
{
    let (sa, na) = (duration_as_secs(a), duration_subsec(a));
    let (sb, nb) = (duration_as_secs(b), duration_subsec(b));
    sa < sb || (sa == sb && na < nb)
}

/// Calls `Duration::from_millis`; the result is exactly that many
/// milliseconds.
#[verifier::external_body]
pub fn duration_from_millis(ms: u64) -> (d: Duration)
    ensures
        duration_nanos(d) == ms as int * 1_000_000,
{
    Duration::from_millis(ms)
}

} // verus!
