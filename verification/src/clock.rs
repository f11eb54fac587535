//! The wall clock.

use vstd::prelude::*;

verus! {

/// The last second that the clock can show: `chrono` has no date for a day
/// whose number, counted from the first day of the common era, is beyond an
/// `i32`.
pub const LATEST_SECOND: i64 = 185_480_451_503_999;

/// Whether `now` is a second that the clock can show: not before the Unix
/// epoch, and not after [`LATEST_SECOND`].
pub open spec fn spec_clock_second(now: int) -> bool {
    0 <= now <= LATEST_SECOND
}

/// `chrono::Utc::now().timestamp()`: the seconds since the Unix epoch, as the
/// machine's clock has them. Two calls may differ. The count is never
/// negative: `Utc::now` measures from the epoch and does not return for a
/// clock set before it. Nor is it beyond [`LATEST_SECOND`]: `Utc::now` makes
/// its date with `DateTime::from_timestamp`, which has none for a later
/// second, and does not return without one.
#[verifier::external_body]
pub(crate) fn unix_now() -> (now: i64)
    ensures
        spec_clock_second(now as int),
{
    chrono::Utc::now().timestamp()
}

} // verus!
