//! The day-based seed: the start of the current UTC day, in milliseconds.

use vstd::prelude::*;

verus! {

/// Milliseconds in one day.
pub const MILLIS_PER_DAY: i64 = 86_400_000;

/// `std::time::SystemTime::now` read as whole milliseconds since the Unix
/// epoch (`duration_since(UNIX_EPOCH)`, then `Duration::as_millis`). The
/// result is `None` when the clock reads before the epoch (the error of
/// `duration_since`) or when the count does not fit in an `i64`. Which
/// instant comes depends on the clock and is left unsaid; a reading that
/// comes back is a duration, so it is not negative.
#[verifier::external_body]
pub(crate) fn clock_millis_since_epoch() -> (r: Option<i64>)
    ensures
        r matches Some(ms) ==> ms >= 0,
{
    let since = std::time::SystemTime::now().duration_since(std::time::UNIX_EPOCH).ok()?;
    i64::try_from(since.as_millis()).ok()
}

/// The start of the UTC day holding the instant `ms` (milliseconds since the
/// epoch): `ms` rounded down to a whole number of days.
pub open spec fn day_start_spec(ms: int) -> int {
    ms - ms % (MILLIS_PER_DAY as int)
}

/// The seed of the day holding `ms`: its start in milliseconds, read as an
/// unsigned number (two's complement for instants before the epoch).
pub open spec fn day_seed_spec(ms: int) -> int {
    let d: int = day_start_spec(ms);
    if d >= 0 { d } else { d + 0x1_0000_0000_0000_0000 }
}

/// Two instants of the same UTC day give the same start of day and the
/// same seed.
pub proof fn lemma_same_day_same_seed(a: int, b: int)
    requires
        a / (MILLIS_PER_DAY as int) == b / (MILLIS_PER_DAY as int),
    ensures
        day_start_spec(a) == day_start_spec(b),
        day_seed_spec(a) == day_seed_spec(b),
{
    assert(a == (a / 86_400_000) * 86_400_000 + a % 86_400_000) by (nonlinear_arith);
    assert(b == (b / 86_400_000) * 86_400_000 + b % 86_400_000) by (nonlinear_arith);
}

/// The start of a day is a whole number of days, and the day starts at its
/// own start.
pub proof fn lemma_day_start_is_whole_days(ms: int)
    ensures
        day_start_spec(ms) % (MILLIS_PER_DAY as int) == 0,
        day_start_spec(ms) <= ms < day_start_spec(ms) + MILLIS_PER_DAY,
        day_start_spec(day_start_spec(ms)) == day_start_spec(ms),
{
    assert(ms == (ms / 86_400_000) * 86_400_000 + ms % 86_400_000) by (nonlinear_arith);
    assert(((ms / 86_400_000) * 86_400_000) % 86_400_000 == 0) by (nonlinear_arith);
}

/// An instant at or after the epoch starts its day at or after the epoch,
/// so its seed is its start of day.
pub proof fn lemma_day_start_of_instant_after_epoch(ms: int)
    requires
        ms >= 0,
    ensures
        day_start_spec(ms) >= 0,
        day_seed_spec(ms) == day_start_spec(ms),
{
}

/// For instants at or after the epoch, the day seed never decreases with
/// time, and two instants get the same seed exactly when they fall on the
/// same UTC day.
pub proof fn lemma_day_seed_monotone(a: int, b: int)
    requires
        0 <= a <= b,
    ensures
        day_seed_spec(a) <= day_seed_spec(b),
        day_seed_spec(a) == day_seed_spec(b) <==> a / (MILLIS_PER_DAY as int) == b / (MILLIS_PER_DAY
            as int),
{
    assert(a == (a / 86_400_000) * 86_400_000 + a % 86_400_000) by (nonlinear_arith);
    assert(b == (b / 86_400_000) * 86_400_000 + b % 86_400_000) by (nonlinear_arith);
    assert(a / 86_400_000 <= b / 86_400_000) by (nonlinear_arith)
        requires
            0 <= a <= b,
    ;
    assert((a / 86_400_000) * 86_400_000 <= (b / 86_400_000) * 86_400_000) by (nonlinear_arith)
        requires
            a / 86_400_000 <= b / 86_400_000,
    ;
    assert((a / 86_400_000) * 86_400_000 == (b / 86_400_000) * 86_400_000 ==> a / 86_400_000 == b
        / 86_400_000) by (nonlinear_arith);
}

/// The start of the UTC day holding the instant `ms`: midnight of that date.
/// For instants in the first day before the smallest `i64`, that midnight
/// lies below `i64::MIN`, so the result is an `i128`.
pub fn day_start_millis(ms: i64) -> (r: i128)
    ensures
        r == day_start_spec(ms as int),
{
    let m: i128 = ms as i128;
    let rem: i128 = m % (MILLIS_PER_DAY as i128);
    if rem < 0 {
        m - (rem + MILLIS_PER_DAY as i128)
    } else {
        m - rem
    }
}

/// The seed of the day holding the instant `ms`.
pub fn day_seed(ms: i64) -> (r: u64)
    ensures
        r == day_seed_spec(ms as int),
{
    let d: i128 = day_start_millis(ms);
    if d >= 0 {
        d as u64
    } else {
        (d + 0x1_0000_0000_0000_0000i128) as u64
    }
}

/// The seed of the current UTC day, or `None` when the clock cannot be read
/// as an instant at or after the epoch.
pub fn today_seed() -> (r: Option<u64>)
    ensures
        r matches Some(s) ==> (exists|ms: i64| ms >= 0 && s == day_seed_spec(ms as int)) && s % (
        MILLIS_PER_DAY as u64) == 0,
{
    match clock_millis_since_epoch() {
        None => None,
        Some(ms) => {
            proof {
                lemma_day_start_is_whole_days(ms as int);
                lemma_day_start_of_instant_after_epoch(ms as int);
            }
            Some(day_seed(ms))
        },
    }
}

} // verus!
