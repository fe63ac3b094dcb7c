//! Ages of resources, written as days, hours, minutes and seconds.

use vstd::prelude::*;
use vstd::string::*;
use crate::text::{append_decimal, decimal};

verus! {

/// The quotient of `a` by a positive `b`, rounded toward zero.
pub open spec fn trunc_div(a: int, b: int) -> int {
    if a >= 0 {
        a / b
    } else {
        -((-a) / b)
    }
}

/// The remainder that goes with [`trunc_div`]: it has the sign of `a`.
pub open spec fn trunc_rem(a: int, b: int) -> int {
    a - b * trunc_div(a, b)
}

/// How an age of `seconds` whole seconds is written: the days, then the hours
/// of the day, the minutes of the hour and the seconds of the minute, each
/// counted toward zero and followed by its unit letter.
pub open spec fn age_text(seconds: int) -> Seq<char> {
    decimal(trunc_div(seconds, 86_400)) + seq!['d', ' ']
        + decimal(trunc_rem(trunc_div(seconds, 3_600), 24)) + seq!['h', ' ']
        + decimal(trunc_rem(trunc_div(seconds, 60), 60)) + seq!['m', ' ']
        + decimal(trunc_rem(seconds, 60)) + seq!['s']
}

/// Writes an age of `seconds` whole seconds, as in `1d 2h 3m 5s`.
pub fn format_age(seconds: i128) -> (text: String)
    ensures
        text@ == age_text(seconds as int),
{
    let days: i128 = seconds / 86_400;
    let hours: i128 = (seconds / 3_600) % 24;
    let minutes: i128 = (seconds / 60) % 60;
    let secs: i128 = seconds % 60;
    proof {
        reveal_strlit("d ");
        reveal_strlit("h ");
        reveal_strlit("m ");
        reveal_strlit("s");
    }
    let mut text = String::new();
    append_decimal(&mut text, days);
    text.append("d ");
    append_decimal(&mut text, hours);
    text.append("h ");
    append_decimal(&mut text, minutes);
    text.append("m ");
    append_decimal(&mut text, secs);
    text.append("s");
    text
}

/// An age of whole days, hours of the day, minutes of the hour and seconds of
/// the minute is written with exactly those four numbers.
pub proof fn lemma_age_text_of_parts(days: int, hours: int, minutes: int, seconds: int)
    requires
        0 <= days,
        0 <= hours < 24,
        0 <= minutes < 60,
        0 <= seconds < 60,
    ensures
        age_text(days * 86_400 + hours * 3_600 + minutes * 60 + seconds) == decimal(days)
            + seq!['d', ' '] + decimal(hours) + seq!['h', ' '] + decimal(minutes) + seq!['m', ' ']
            + decimal(seconds) + seq!['s'],
{
    let total: int = days * 86_400 + hours * 3_600 + minutes * 60 + seconds;
    assert(trunc_div(total, 86_400) == days);
    assert(trunc_div(total, 3_600) == days * 24 + hours);
    assert(trunc_div(total, 60) == days * 1_440 + hours * 60 + minutes);
    assert(trunc_rem(total, 60) == seconds);
}

/// An age of no time at all is written `0d 0h 0m 0s`.
pub proof fn lemma_age_text_of_zero()
    ensures
        age_text(0) == "0d 0h 0m 0s"@,
{
    reveal_strlit("0d 0h 0m 0s");
    lemma_age_text_of_parts(0, 0, 0, 0);
}

/// An age of 1 day, 2 hours, 3 minutes and 5 seconds is written
/// `1d 2h 3m 5s`.
pub proof fn lemma_age_text_of_a_day_and_more()
    ensures
        age_text(93_785) == "1d 2h 3m 5s"@,
{
    reveal_strlit("1d 2h 3m 5s");
    lemma_age_text_of_parts(1, 2, 3, 5);
}

} // verus!
