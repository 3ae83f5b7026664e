//! Constants shared by the filter and predicate pipeline.

use vstd::prelude::*;

verus! {

/// Number of seconds in a day, the fixed unit behind the recency window.
pub const SECS_PER_DAY: u64 = 86_400;

/// Number of millionths of a day in one day.  Window thresholds are
/// supplied in millionths of a day, so fractional-day windows need no
/// floating point.
pub const MICRODAYS_PER_DAY: u64 = 1_000_000;

/// Smallest admissible threshold: one millionth of a day.  A window of
/// zero width is rejected so that rounding cannot admit everything.
pub const MIN_DAYS_MICRO: u64 = 1;

/// Largest admissible threshold: keeps the window computation
/// `ceil(SECS_PER_DAY * days / MICRODAYS_PER_DAY)` inside `u64`.
pub const MAX_DAYS_MICRO: u64 = (u64::MAX - (MICRODAYS_PER_DAY - 1)) / SECS_PER_DAY;

} // verus!
