//! The clock and the spans of time it is read in.
//!
//! `Duration` and `Instant` are opaque to the verifier. What the library needs
//! to know of them is stated here, in the contracts of the few functions that
//! call them, and is believed without proof.

use instant::Instant;
use std::time::Duration;
use vstd::prelude::*;

verus! {

/// The number of nanoseconds that a `Duration` spans: what `Duration::as_nanos`
/// returns for it.
pub uninterp spec fn duration_nanos(d: Duration) -> nat;

/// The nanoseconds of `Duration::MAX`: `u64::MAX` whole seconds and
/// 999,999,999 nanoseconds.
pub open spec fn max_duration_nanos() -> nat {
    18_446_744_073_709_551_615 * 1_000_000_000 + 999_999_999
}

/// Addition of spans that stops at the longest `Duration`.
pub open spec fn saturating_nanos(a: nat, b: nat) -> nat {
    if a + b <= max_duration_nanos() {
        a + b
    } else {
        max_duration_nanos()
    }
}

#[verifier::external_type_specification]
#[verifier::external_body]
pub struct ExInstant(Instant);

/// Calls `Duration::as_nanos`. Believed: the result is the span in
/// nanoseconds.
#[verifier::external_body]
pub(crate) fn duration_as_nanos(d: Duration) -> (n: u128)
    ensures
        n == duration_nanos(d),
{
    d.as_nanos()
}

/// Calls `Duration::from_millis`. Believed: the result spans `millis`
/// milliseconds.
#[verifier::external_body]
pub(crate) fn duration_from_millis(millis: u64) -> (d: Duration)
    ensures
        duration_nanos(d) == millis * 1_000_000,
{
    Duration::from_millis(millis)
}

/// Calls `Duration::from_secs`. Believed: the result spans `secs` whole
/// seconds.
#[verifier::external_body]
pub(crate) fn duration_from_secs(secs: u64) -> (d: Duration)
    ensures
        duration_nanos(d) == secs * 1_000_000_000,
{
    Duration::from_secs(secs)
}

/// Calls `Duration::saturating_add`. Believed: the result is the sum of the
/// two spans, or `Duration::MAX` where the sum would pass it; no `Duration`
/// is longer than `Duration::MAX`, so the result is never shorter than the
/// first span.
#[verifier::external_body]
pub(crate) fn duration_saturating_add(a: Duration, b: Duration) -> (sum: Duration)
    ensures
        duration_nanos(sum) == saturating_nanos(duration_nanos(a), duration_nanos(b)),
        duration_nanos(sum) >= duration_nanos(a),
{
    a.saturating_add(b)
}

/// Calls `Instant::now`, a reading of the monotonic clock. Nothing is claimed
/// of the reading.
#[verifier::external_body]
pub(crate) fn instant_now() -> Instant {
    Instant::now()
}

/// Calls `Instant::elapsed`, the time that has passed since the reading was
/// taken. It depends on the clock, so nothing is claimed of it.
#[verifier::external_body]
pub(crate) fn instant_elapsed(since: &Instant) -> Duration {
    since.elapsed()
}

} // verus!
