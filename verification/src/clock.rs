//! Time, as counts of `embassy_time` ticks.
//!
//! Instants and durations are plain tick counts. The crate builds `embassy_time`
//! at one tick per microsecond: its `std` feature selects that rate, and the
//! crate does not compile with a second rate selected.

use embassy_time::{Duration, Instant};
use vstd::prelude::*;

verus! {

/// Ticks in one millisecond.
pub const TICKS_PER_MILLI: u64 = 1000;

/// `embassy_time::Duration::from_micros`: the number of ticks that last at least
/// `micros` microseconds. At one tick per microsecond that is `micros` itself.
/// The rounding adds one before it divides, so the largest `u64` is left out.
#[verifier::external_body]
pub(crate) fn duration_from_micros(micros: u64) -> (ticks: u64)
    requires
        micros < u64::MAX,
    ensures
        ticks == micros,
{
    Duration::from_micros(micros).as_ticks()
}

/// `embassy_time::Duration::from_millis`: the number of ticks that last at least
/// `millis` milliseconds, a thousand for each. The product and the one that the
/// rounding adds to it have to fit.
#[verifier::external_body]
pub(crate) fn duration_from_millis(millis: u64) -> (ticks: u64)
    requires
        millis * TICKS_PER_MILLI < u64::MAX,
    ensures
        ticks == millis * TICKS_PER_MILLI,
{
    Duration::from_millis(millis).as_ticks()
}

/// `embassy_time::Duration::as_millis`: the whole milliseconds in a duration of
/// `ticks` ticks, rounded down.
#[verifier::external_body]
pub(crate) fn duration_as_millis(ticks: u64) -> (millis: u64)
    ensures
        millis == ticks / TICKS_PER_MILLI,
{
    Duration::from_ticks(ticks).as_millis()
}

/// `embassy_time::Instant::duration_since`: the ticks from `earlier` to `now`. It
/// panics where `earlier` lies after `now`, so that is left out.
#[verifier::external_body]
pub(crate) fn duration_since(now: u64, earlier: u64) -> (ticks: u64)
    requires
        earlier <= now,
    ensures
        ticks == now - earlier,
{
    Instant::from_ticks(now).duration_since(Instant::from_ticks(earlier)).as_ticks()
}

/// `embassy_time::Instant::now`: the present tick count. Nothing is said of the
/// value, which the running clock decides.
#[verifier::external_body]
pub(crate) fn now() -> u64 {
    Instant::now().as_ticks()
}

/// The present tick count, or `earlier` should the clock read less than that. A
/// clock that never runs backwards has nothing to correct.
pub(crate) fn now_not_before(earlier: Option<u64>) -> (ticks: u64)
    ensures
        earlier matches Some(t) ==> t <= ticks,
{
    let present: u64 = now();
    match earlier {
        Some(t) => if present < t {
            t
        } else {
            present
        },
        None => present,
    }
}

} // verus!
