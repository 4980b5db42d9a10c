//! The time of a message.
use vstd::prelude::*;
use chrono::DateTime;

verus! {

/// The first second of the year -262143, counted from the beginning of 1970.
pub const FIRST_SECOND: i64 = -8_334_601_228_800;

/// The last second of the year 262142, counted from the beginning of 1970.
pub const LAST_SECOND: i64 = 8_210_266_876_799;

/// A time as a signed number of seconds. The upper half of the times is taken as negative.
pub open spec fn signed_seconds(time: u64) -> int {
    if time <= i64::MAX {
        time as int
    } else {
        time - 0x1_0000_0000_0000_0000
    }
}

/// The second that a time stands for, where a calendar has it.
pub open spec fn instant_of(time: u64) -> Option<i64> {
    if FIRST_SECOND <= signed_seconds(time) <= LAST_SECOND {
        Some(signed_seconds(time) as i64)
    } else {
        None
    }
}

/// `chrono::DateTime::from_timestamp` with no nanoseconds gives a date for the seconds of the
/// years -262143 to 262142, and for no others.
#[verifier::external_body]
fn has_date(seconds: i64) -> (dated: bool)
    ensures
        dated == (FIRST_SECOND <= seconds <= LAST_SECOND),
{
    DateTime::from_timestamp(seconds, 0).is_some()
}

/// The second to show for a time, or `None` where there is no date to show.
pub fn displayed_instant(time: u64) -> (instant: Option<i64>)
    ensures
        instant == instant_of(time),
{
    let seconds: i64 = if time <= 0x7fff_ffff_ffff_ffff {
        time as i64
    } else {
        -((0xffff_ffff_ffff_ffff - time) as i64) - 1
    };
    if has_date(seconds) {
        Some(seconds)
    } else {
        None
    }
}

/// The second that is shown for a time is the time itself or, where that is too great for a
/// signed number, the negative one with the same bits; and it is shown if and only if it lies in
/// the years -262143 to 262142.
pub proof fn law_shown_second(time: u64, second: i64)
    ensures
        instant_of(time) == Some(second) <==> {
            &&& second == time || second == time - 0x1_0000_0000_0000_0000int
            &&& -8_334_601_228_800 <= second <= 8_210_266_876_799
        },
{
}

} // verus!
