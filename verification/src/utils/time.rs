use vstd::prelude::*;

verus! {

/// Seconds in one day.
pub const SECONDS_PER_DAY: i64 = 86_400;

/// The whole days from `then_ts` to `now_ts`, with the difference of the two
/// clamped to the range of `i64` before it is divided. The quotient is rounded
/// towards zero, so a negative difference gives a negative or zero count.
pub open spec fn spec_days_between(now_ts: int, then_ts: int) -> int {
    let raw = now_ts - then_ts;
    let diff = if raw > i64::MAX {
        i64::MAX as int
    } else if raw < i64::MIN {
        i64::MIN as int
    } else {
        raw
    };
    if diff >= 0 {
        diff / 86_400
    } else {
        -((-diff) / 86_400)
    }
}

/// Number of whole days between two timestamps.
pub fn days_between(now_ts: i64, then_ts: i64) -> (days: i64)
    ensures
        days == spec_days_between(now_ts as int, then_ts as int),
{
    let diff: i64 = match now_ts.checked_sub(then_ts) {
        Some(d) => d,
        None => if then_ts < 0 { i64::MAX } else { i64::MIN },
    };
    diff / SECONDS_PER_DAY
}

} // verus!
