//! Readings of the monotonic clock and the lengths of time between them. What comes
//! back depends on the clock, so nothing is claimed of it; the rules that compare a
//! length of time with a limit are verified functions that take the length as a number.

use vstd::prelude::*;

verus! {

/// `std::time::Instant::elapsed`: the time since `t`. Nothing is claimed of it.
#[verifier::external_body]
pub(crate) fn instant_elapsed(t: std::time::Instant) -> std::time::Duration {
    t.elapsed()
}

/// `std::time::Instant::saturating_duration_since`: the time from `earlier` to `later`,
/// zero when `earlier` is the later one. Nothing is claimed of it.
#[verifier::external_body]
pub(crate) fn instant_saturating_duration_since(
    later: std::time::Instant,
    earlier: std::time::Instant,
) -> std::time::Duration {
    later.saturating_duration_since(earlier)
}

/// `std::time::Duration::as_millis`: the whole milliseconds of `d`. Nothing is claimed of
/// the value, since a duration's length is not visible to proofs.
#[verifier::external_body]
pub(crate) fn duration_as_millis(d: std::time::Duration) -> u128 {
    d.as_millis()
}

/// `std::time::Duration::as_secs`: the whole seconds of `d`. Nothing is claimed of the
/// value, since a duration's length is not visible to proofs.
#[verifier::external_body]
pub(crate) fn duration_as_secs(d: std::time::Duration) -> u64 {
    d.as_secs()
}

} // verus!
