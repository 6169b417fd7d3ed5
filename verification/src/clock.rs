//! Elapsed time between two readings of the microsecond tick counter.
//!
//! Readings are plain tick counts. The arithmetic on them is that of `fugit`,
//! whose instants order themselves on a wrapping counter: of two readings the
//! later one is the one at most half the counter's range ahead of the other.
use vstd::prelude::*;

verus! {

/// Ticks of the counter in one millisecond.
pub const TICKS_PER_MILLI: u64 = 1000;

/// How far `now` lies ahead of `earlier` on the wrapping counter.
pub open spec fn wrapping_distance(now: u64, earlier: u64) -> int {
    if now >= earlier {
        now - earlier
    } else {
        now - earlier + 0x1_0000_0000_0000_0000
    }
}

/// The ticks from `earlier` to `now`, or none where `now` counts as before `earlier`.
pub open spec fn spec_ticks_between(now: u64, earlier: u64) -> Option<u64> {
    let distance = wrapping_distance(now, earlier);
    if distance <= u64::MAX / 2 {
        Some(distance as u64)
    } else {
        None
    }
}

/// The whole milliseconds from `earlier` to `now`, or none where `now` counts
/// as before `earlier`.
pub open spec fn spec_elapsed_millis(now: u64, earlier: u64) -> Option<u64> {
    match spec_ticks_between(now, earlier) {
        Some(ticks) => Some(ticks / TICKS_PER_MILLI),
        None => None,
    }
}

/// Calls `fugit::Instant::<u64, 1, 1_000_000>::checked_duration_since` on two
/// instants made of the readings, and hands back the ticks of the duration.
/// Trusted: the result is the wrapping difference of the readings where that
/// is at most half the range of `u64`, and none otherwise, as the comparison
/// in fugit's `const_cmp` decides it.
#[verifier::external_body]
fn ticks_between(now: u64, earlier: u64) -> (r: Option<u64>)
    ensures
        r == spec_ticks_between(now, earlier),
{
    let now = fugit::Instant::<u64, 1, 1_000_000>::from_ticks(now);
    let earlier = fugit::Instant::<u64, 1, 1_000_000>::from_ticks(earlier);
    match now.checked_duration_since(earlier) {
        Some(duration) => Some(duration.ticks()),
        None => None,
    }
}

/// Calls `fugit::Duration::<u64, 1, 1_000_000>::to_millis` on a duration of
/// `ticks` microseconds. Trusted: the result is the tick count divided by
/// 1000, rounded down; for this time base fugit multiplies by 1 and divides
/// by 1000, so nothing overflows.
#[verifier::external_body]
fn ticks_to_millis(ticks: u64) -> (r: u64)
    ensures
        r == ticks / TICKS_PER_MILLI,
{
    fugit::Duration::<u64, 1, 1_000_000>::from_ticks(ticks).to_millis()
}

/// The whole milliseconds that passed from the reading `earlier` to the
/// reading `now`; none where `now` counts as before `earlier`.
pub fn elapsed_millis(now: u64, earlier: u64) -> (r: Option<u64>)
    ensures
        r == spec_elapsed_millis(now, earlier),
        now >= earlier && now - earlier <= u64::MAX / 2 ==> r == Some(((now - earlier) / 1000) as u64),
{
    match ticks_between(now, earlier) {
        Some(ticks) => Some(ticks_to_millis(ticks)),
        None => None,
    }
}

} // verus!
