//! What a card's runs said, line by line.

use vstd::prelude::*;

use crate::outside::{
    datable, day_second, fixed_clock, hour_minute_second, local_offset, zoned,
};

verus! {

/// How many of the first lines are left out: all but the last `cap`, and none
/// without a cap.
pub open spec fn left_out(len: nat, cap: nat) -> nat {
    if cap == 0 || len <= cap {
        0
    } else {
        (len - cap) as nat
    }
}

/// The lines shown: the last `cap` of them. How many earlier ones are left out,
/// which is also the number the first shown line is known by.
pub fn tail_window(len: usize, cap: usize) -> (hidden: usize)
    ensures
        hidden == left_out(len as nat, cap as nat),
        hidden <= len,
{
    if cap == 0 || len <= cap {
        0
    } else {
        len - cap
    }
}

/// One more line moves the window by one line at most, and by exactly one once
/// it is full: a line keeps its number.
pub proof fn the_window_slides(len: nat, cap: nat)
    ensures
        left_out(len + 1, cap) == left_out(len, cap) + (if cap > 0 && len >= cap {
            1nat
        } else {
            0
        }),
        cap > 0 ==> len - left_out(len, cap) <= cap,
{
}

/// The time of day that a clock `east` of UTC shows at a timestamp, or nothing
/// for one that no date can be had for.
pub open spec fn time_words(ms: i64, east: i32) -> Seq<char> {
    if datable(ms) && zoned(east) {
        hour_minute_second(day_second(ms, east))
    } else {
        Seq::empty()
    }
}

pub fn time_at(ms: i64, east: i32) -> (r: String)
    ensures
        r@ == time_words(ms, east),
{
    match fixed_clock(ms, east, "%H:%M:%S") {
        Some(t) => t,
        None => String::new(),
    }
}

/// A timestamp in milliseconds as the time of day by the machine's own clock, or
/// nothing for one that no date can be had for. How far that clock is from UTC
/// is the machine's to say.
pub fn fmt_time(ms: i64) -> (r: String)
    ensures
        !datable(ms) ==> r@ == Seq::<char>::empty(),
        datable(ms) ==> exists|east: i32| #[trigger] zoned(east) && r@ == time_words(ms, east),
{
    match local_offset(ms) {
        Some(east) => time_at(ms, east),
        None => String::new(),
    }
}

// ---- Laws ----------------------------------------------------------------

/// Of a transcript that fits nothing is left out, nor of any where there is no cap; of a
/// longer one the cap's worth of lines is shown, the last ones.
pub proof fn a_cap_shows_its_worth(len: nat, cap: nat)
    ensures
        len <= cap ==> left_out(len, cap) == 0,
        cap == 0 ==> left_out(len, cap) == 0,
        0 < cap < len ==> len - left_out(len, cap) == cap,
{
}

/// A time of day is read off the clock: hours, minutes and seconds, two digits each. A
/// day later the clock reads the same, and so it does an hour later an hour further west.
pub proof fn the_clock_goes_round(ms: i64, east: i32, later: i64, west: i32)
    requires
        datable(ms),
        zoned(east),
        datable(later),
        zoned(west),
    ensures
        time_words(ms, east).len() == 8,
        time_words(ms, east)[2] == ':' && time_words(ms, east)[5] == ':',
        later == ms + 86_400_000 ==> time_words(later, east) == time_words(ms, east),
        later == ms + 3_600_000 && west == east - 3600 ==> time_words(later, west) == time_words(
            ms,
            east,
        ),
{
    assert((ms as int + 86_400_000) / 1000 == ms as int / 1000 + 86_400);
    assert((ms as int / 1000 + 86_400 + east) % 86400 == (ms as int / 1000 + east) % 86400);
    assert((ms as int + 3_600_000) / 1000 == ms as int / 1000 + 3600);
}

} // verus!
