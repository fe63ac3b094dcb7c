//! Instants on the UTC time line and readings of the system clock.

use vstd::prelude::*;
use vstd::string::*;
use crate::age::trunc_div;
use crate::text::digit_char;

verus! {

/// An instant: whole seconds since 1970-01-01T00:00:00Z and the nanoseconds
/// past that second. Nanoseconds of a second or more note a leap second, the
/// way `chrono` notes one: the instant lies that far into the second that
/// was put in after the one that `secs` counts.
#[derive(Clone, Copy, Debug, PartialEq, Eq, Structural)]
pub struct Timestamp {
    pub secs: i64,
    pub nanos: u32,
}

impl Timestamp {
    /// The second of the day in which the instant lies, from 0 to 86 399.
    pub open spec fn second_of_day(self) -> int {
        (self.secs as int) % 86_400
    }

    /// Whether the instant lies in a leap second.
    pub open spec fn in_leap_second(self) -> bool {
        self.nanos >= 1_000_000_000
    }

    /// The second that a leap second adds to, or takes from, the time from
    /// `earlier` to `self`. A leap second counts only against an instant that
    /// stands at another time of day, and counts as the one leap second that
    /// there was: this is how `chrono` subtracts two dates and times.
    pub open spec fn leap_seconds_between(self, earlier: Timestamp) -> int {
        if self.second_of_day() > earlier.second_of_day() && earlier.in_leap_second() {
            1
        } else if self.second_of_day() < earlier.second_of_day() && self.in_leap_second() {
            -1
        } else {
            0
        }
    }

    /// The nanoseconds from `earlier` to `self`; negative when `self` comes
    /// first.
    pub open spec fn nanos_since(self, earlier: Timestamp) -> int {
        let seconds = self.secs - earlier.secs + self.leap_seconds_between(earlier);
        seconds * 1_000_000_000 + (self.nanos - earlier.nanos)
    }

    /// The whole seconds from `earlier` to `self`, counted toward zero.
    pub open spec fn spec_seconds_since(self, earlier: Timestamp) -> int {
        trunc_div(self.nanos_since(earlier), 1_000_000_000)
    }

    fn day_second(&self) -> (second: i64)
        ensures
            second == self.second_of_day(),
    {
        let rest: i64 = self.secs % 86_400;
        if rest < 0 {
            rest + 86_400
        } else {
            rest
        }
    }

    /// The whole seconds from `earlier` to `self`, counted toward zero: a part
    /// of a second is dropped, whichever of the two instants comes first.
    pub fn seconds_since(&self, earlier: &Timestamp) -> (seconds: i128)
        ensures
            seconds == self.spec_seconds_since(*earlier),
    {
        let here = self.day_second();
        let there = earlier.day_second();
        let leap: i128 = if here > there && earlier.nanos >= 1_000_000_000 {
            1
        } else if here < there && self.nanos >= 1_000_000_000 {
            -1
        } else {
            0
        };
        let whole: i128 = self.secs as i128 - earlier.secs as i128 + leap;
        let part: i128 = self.nanos as i128 - earlier.nanos as i128;
        (whole * 1_000_000_000 + part) / 1_000_000_000
    }
}

/// No time lies between an instant and itself.
pub proof fn lemma_seconds_since_itself(t: Timestamp)
    ensures
        t.spec_seconds_since(t) == 0,
{
}

/// Where `later` lies a whole number of seconds after `earlier`, and neither
/// in a leap second, that number is the time between them.
pub proof fn lemma_seconds_since_whole(later: Timestamp, earlier: Timestamp, seconds: nat)
    requires
        later.secs == earlier.secs + seconds,
        later.nanos == earlier.nanos,
        !earlier.in_leap_second(),
    ensures
        later.spec_seconds_since(earlier) == seconds,
{
}

/// What the system clock said when it was read: the instant, and the same
/// instant as an RFC 3339 date and time.
#[derive(Clone, Debug, PartialEq, Eq)]
pub struct ClockReading {
    pub at: Timestamp,
    pub rfc3339: String,
}

/// The mathematical content of a [`ClockReading`].
pub struct ClockReadingView {
    pub at: Timestamp,
    pub rfc3339: Seq<char>,
}

impl View for ClockReading {
    type V = ClockReadingView;

    open spec fn view(&self) -> ClockReadingView {
        ClockReadingView { at: self.at, rfc3339: self.rfc3339@ }
    }
}

/// Whether `c` is a decimal digit.
pub open spec fn is_digit(c: char) -> bool {
    '0' <= c && c <= '9'
}

/// Whether `text` holds a decimal digit at each place from `from` up to, and
/// without, `to`.
pub open spec fn all_digits(text: Seq<char>, from: int, to: int) -> bool {
    forall|i: int| from <= i < to ==> is_digit(#[trigger] text[i])
}

/// How many characters the fraction of the second takes in `text`, the point
/// included: 4, 7 or 10 where a point stands that far before the offset, and
/// none otherwise.
pub open spec fn fraction_chars(text: Seq<char>) -> int {
    let n = text.len() as int;
    if n >= 10 && text[n - 10] == '.' {
        4
    } else if n >= 13 && text[n - 13] == '.' {
        7
    } else if n >= 16 && text[n - 16] == '.' {
        10
    } else {
        0
    }
}

/// How many characters the year takes in `text`: what is left of it before
/// the month, the day, the time, the fraction and the offset.
pub open spec fn year_chars(text: Seq<char>) -> int {
    text.len() - 21 - fraction_chars(text)
}

/// Whether `text` has the form of an RFC 3339 date and time in UTC, as in
/// `2015-05-15T00:00:00+00:00` or `2015-05-15T00:00:00.250+00:00`:
///
/// - the year, of four digits, or of a sign and four digits or more;
/// - `-`, two digits of the month, `-`, two digits of the day, and `T`;
/// - two digits each of the hour, the minute and the second, with `:`
///   between them;
/// - where the second has a fraction, a point and 3, 6 or 9 digits;
/// - the offset `+00:00`.
pub open spec fn is_rfc3339_utc(text: Seq<char>) -> bool {
    let n = text.len() as int;
    let f = fraction_chars(text);
    let y = year_chars(text);
    &&& y >= 4
    &&& if y == 4 {
        all_digits(text, 0, 4)
    } else {
        (text[0] == '+' || text[0] == '-') && all_digits(text, 1, y)
    }
    &&& text[y] == '-'
    &&& all_digits(text, y + 1, y + 3)
    &&& text[y + 3] == '-'
    &&& all_digits(text, y + 4, y + 6)
    &&& text[y + 6] == 'T'
    &&& all_digits(text, y + 7, y + 9)
    &&& text[y + 9] == ':'
    &&& all_digits(text, y + 10, y + 12)
    &&& text[y + 12] == ':'
    &&& all_digits(text, y + 13, y + 15)
    &&& f > 0 ==> text[y + 15] == '.' && all_digits(text, y + 16, y + 15 + f)
    &&& text[n - 6] == '+'
    &&& text[n - 5] == '0'
    &&& text[n - 4] == '0'
    &&& text[n - 3] == ':'
    &&& text[n - 2] == '0'
    &&& text[n - 1] == '0'
}

/// Whether `c` is one of the characters that a date and time of the clock is
/// written with: a decimal digit, a sign, `:`, `.` or `T`.
pub open spec fn is_timestamp_char(c: char) -> bool {
    is_digit(c) || c == '+' || c == '-' || c == ':' || c == '.' || c == 'T'
}

/// Whether every character of `text` is a timestamp character.
pub open spec fn is_timestamp_text(text: Seq<char>) -> bool {
    forall|i: int| 0 <= i < text.len() ==> is_timestamp_char(#[trigger] text[i])
}

/// An RFC 3339 date and time in UTC has 25 characters or more, and all of
/// them are timestamp characters.
pub proof fn lemma_rfc3339_utc_is_timestamp_text(text: Seq<char>)
    requires
        is_rfc3339_utc(text),
    ensures
        text.len() >= 25,
        is_timestamp_text(text),
{
    let n = text.len() as int;
    let f = fraction_chars(text);
    let y = year_chars(text);
    assert forall|i: int| 0 <= i < text.len() implies is_timestamp_char(#[trigger] text[i]) by {
        if i < y {
            if y == 4 {
                assert(is_digit(text[i]));
            } else if i >= 1 {
                assert(is_digit(text[i]));
            }
        } else if i < y + 15 {
            if y + 1 <= i < y + 3 || y + 4 <= i < y + 6 || y + 7 <= i < y + 9 || y + 10 <= i < y
                + 12 || y + 13 <= i < y + 15 {
                assert(is_digit(text[i]));
            }
        } else if i < y + 15 + f {
            if i >= y + 16 {
                assert(is_digit(text[i]));
            }
        }
    }
}

/// Whether `text` holds a decimal digit at each place from `from` up to, and
/// without, `to`.
fn digits_between(text: &str, from: usize, to: usize) -> (ok: bool)
    requires
        from <= to <= text@.len(),
    ensures
        ok == all_digits(text@, from as int, to as int),
{
    let mut i: usize = from;
    while i < to
        invariant
            from <= i <= to,
            to <= text@.len(),
            all_digits(text@, from as int, i as int),
        decreases to - i,
    {
        let c = text.get_char(i);
        if !('0' <= c && c <= '9') {
            assert(!is_digit(text@[i as int]));
            return false;
        }
        i = i + 1;
    }
    true
}

/// How many characters the fraction of the second takes in a text of `n`
/// characters.
fn fraction_length(text: &str, n: usize) -> (f: usize)
    requires
        n == text@.len(),
        n >= 25,
    ensures
        f == fraction_chars(text@),
{
    if text.get_char(n - 10) == '.' {
        4
    } else if text.get_char(n - 13) == '.' {
        7
    } else if text.get_char(n - 16) == '.' {
        10
    } else {
        0
    }
}

/// Whether `text` has the form of an RFC 3339 date and time in UTC.
pub fn is_rfc3339_utc_text(text: &str) -> (ok: bool)
    ensures
        ok == is_rfc3339_utc(text@),
{
    let n = text.unicode_len();
    if n < 25 {
        return false;
    }
    let f = fraction_length(text, n);
    if n < 25 + f {
        return false;
    }
    let y: usize = n - 21 - f;
    let year = if y == 4 {
        digits_between(text, 0, 4)
    } else {
        let sign = text.get_char(0);
        (sign == '+' || sign == '-') && digits_between(text, 1, y)
    };
    let month = text.get_char(y) == '-' && digits_between(text, y + 1, y + 3);
    let day = text.get_char(y + 3) == '-' && digits_between(text, y + 4, y + 6);
    let hour = text.get_char(y + 6) == 'T' && digits_between(text, y + 7, y + 9);
    let minute = text.get_char(y + 9) == ':' && digits_between(text, y + 10, y + 12);
    let second = text.get_char(y + 12) == ':' && digits_between(text, y + 13, y + 15);
    let fraction = f == 0 || (text.get_char(y + 15) == '.' && digits_between(
        text,
        y + 16,
        y + 15 + f,
    ));
    let offset_hours = text.get_char(n - 6) == '+' && text.get_char(n - 5) == '0' && text.get_char(
        n - 4,
    ) == '0';
    let offset_minutes = text.get_char(n - 3) == ':' && text.get_char(n - 2) == '0'
        && text.get_char(n - 1) == '0';
    year && month && day && hour && minute && second && fraction && offset_hours && offset_minutes
}

/// Whether `text` holds the number `value`, below 100, as two decimal digits
/// at the places `at` and `at + 1`.
pub open spec fn two_digits_at(text: Seq<char>, at: int, value: int) -> bool {
    text[at] == digit_char(value / 10) && text[at + 1] == digit_char(value % 10)
}

impl ClockReadingView {
    /// Whether the reading is one that the clock gives: the text has the
    /// form of an RFC 3339 date and time in UTC, the instant lies in no leap
    /// second, and the hour, the minute and the second of the text are those
    /// of the instant's time of day.
    pub open spec fn well_formed(self) -> bool {
        let y = year_chars(self.rfc3339);
        let second = self.at.second_of_day();
        &&& is_rfc3339_utc(self.rfc3339)
        &&& !self.at.in_leap_second()
        &&& two_digits_at(self.rfc3339, y + 7, second / 3_600)
        &&& two_digits_at(self.rfc3339, y + 10, (second / 60) % 60)
        &&& two_digits_at(self.rfc3339, y + 13, second % 60)
    }
}

/// Two readings of the clock with the same text stand at the same time of
/// day: the text of a reading tells its hour, minute and second.
pub proof fn lemma_text_tells_time_of_day(one: ClockReadingView, other: ClockReadingView)
    requires
        one.well_formed(),
        other.well_formed(),
        one.rfc3339 == other.rfc3339,
    ensures
        one.at.second_of_day() == other.at.second_of_day(),
{
    let a = one.at.second_of_day();
    let b = other.at.second_of_day();
    assert(a / 3_600 == b / 3_600) by {
        assert((a / 3_600) / 10 == (b / 3_600) / 10);
        assert((a / 3_600) % 10 == (b / 3_600) % 10);
    }
    assert((a / 60) % 60 == (b / 60) % 60) by {
        assert(((a / 60) % 60) / 10 == ((b / 60) % 60) / 10);
        assert(((a / 60) % 60) % 10 == ((b / 60) % 60) % 10);
    }
    assert(a % 60 == b % 60) by {
        assert((a % 60) / 10 == (b % 60) / 10);
        assert((a % 60) % 10 == (b % 60) % 10);
    }
}

/// Two readings of the clock a second apart differ in their text.
pub proof fn lemma_readings_a_second_apart_differ(one: ClockReadingView, other: ClockReadingView)
    requires
        one.well_formed(),
        other.well_formed(),
        other.at.secs == one.at.secs + 1,
    ensures
        one.rfc3339 != other.rfc3339,
{
    if one.rfc3339 == other.rfc3339 {
        lemma_text_tells_time_of_day(one, other);
    }
}

impl ClockReading {
    /// Whether the reading is one that the clock gives.
    pub fn is_well_formed(&self) -> (ok: bool)
        ensures
            ok == self@.well_formed(),
    {
        let text = self.rfc3339.as_str();
        if !is_rfc3339_utc_text(text) || self.at.nanos >= 1_000_000_000 {
            return false;
        }
        let n = text.unicode_len();
        let y: usize = n - 21 - fraction_length(text, n);
        let second = self.at.day_second();
        let hour = holds_two_digits(text, y + 7, second / 3_600);
        let minute = holds_two_digits(text, y + 10, (second / 60) % 60);
        hour && minute && holds_two_digits(text, y + 13, second % 60)
    }
}

fn digit_of(d: i64) -> (c: char)
    requires
        0 <= d < 10,
    ensures
        c == digit_char(d as int),
{
    if d == 0 {
        '0'
    } else if d == 1 {
        '1'
    } else if d == 2 {
        '2'
    } else if d == 3 {
        '3'
    } else if d == 4 {
        '4'
    } else if d == 5 {
        '5'
    } else if d == 6 {
        '6'
    } else if d == 7 {
        '7'
    } else if d == 8 {
        '8'
    } else {
        '9'
    }
}

fn holds_two_digits(text: &str, at: usize, value: i64) -> (ok: bool)
    requires
        at + 1 < text@.len(),
        at < usize::MAX,
        0 <= value < 100,
    ensures
        ok == two_digits_at(text@, at as int, value as int),
{
    text.get_char(at) == digit_of(value / 10) && text.get_char(at + 1) == digit_of(value % 10)
}

/// Reads the system clock with `chrono::Utc::now` and takes the reading apart
/// with `DateTime::timestamp`, `DateTime::timestamp_subsec_nanos` and
/// `DateTime::to_rfc3339`.
///
/// Nothing is proved of the reading. The contract claims of it what
/// [`ClockReadingView::well_formed`] says: that `to_rfc3339` writes a date
/// and time in UTC in the form of [`is_rfc3339_utc`], with the hour, minute
/// and second of the time of day that `timestamp` counts, and that the
/// system clock gives no leap second. It claims nothing of the date in the
/// text, nor of the digits of the fraction. `Utc::now` panics where the
/// system clock stands before 1970, or past the last date that a `DateTime`
/// holds.
#[verifier::external_body]
pub(crate) fn now() -> (reading: ClockReading)
    ensures
        reading@.well_formed(),
{
    let instant = chrono::Utc::now();
    ClockReading {
        at: Timestamp { secs: instant.timestamp(), nanos: instant.timestamp_subsec_nanos() },
        rfc3339: instant.to_rfc3339(),
    }
}

} // verus!
