//! Decimal numerals and fixed-width columns.

use vstd::prelude::*;
use vstd::string::*;

verus! {

/// The character that writes the decimal digit `d`.
pub open spec fn digit_char(d: int) -> char {
    if d == 0 {
        '0'
    } else if d == 1 {
        '1'
    } else if d == 2 {
        '2'
    } else if d == 3 {
        '3'
    } else if d == 4 {
        '4'
    } else if d == 5 {
        '5'
    } else if d == 6 {
        '6'
    } else if d == 7 {
        '7'
    } else if d == 8 {
        '8'
    } else {
        '9'
    }
}

/// The decimal numeral of a natural number, without leading zeros.
pub open spec fn digits(n: nat) -> Seq<char>
    decreases n,
{
    if n < 10 {
        seq![digit_char(n as int)]
    } else {
        digits(n / 10) + seq![digit_char((n % 10) as int)]
    }
}

/// The decimal numeral of an integer: a minus sign before the digits of a
/// negative number, no sign otherwise.
pub open spec fn decimal(n: int) -> Seq<char> {
    if n < 0 {
        seq!['-'] + digits((-n) as nat)
    } else {
        digits(n as nat)
    }
}

fn digit_str(d: u8) -> (s: &'static str)
    requires
        d < 10,
    ensures
        s@ == seq![digit_char(d as int)],
{
    proof {
        reveal_strlit("0");
        reveal_strlit("1");
        reveal_strlit("2");
        reveal_strlit("3");
        reveal_strlit("4");
        reveal_strlit("5");
        reveal_strlit("6");
        reveal_strlit("7");
        reveal_strlit("8");
        reveal_strlit("9");
    }
    let s = if d == 0 {
        "0"
    } else if d == 1 {
        "1"
    } else if d == 2 {
        "2"
    } else if d == 3 {
        "3"
    } else if d == 4 {
        "4"
    } else if d == 5 {
        "5"
    } else if d == 6 {
        "6"
    } else if d == 7 {
        "7"
    } else if d == 8 {
        "8"
    } else {
        "9"
    };
    s
}

fn append_digits(out: &mut String, n: u128)
    ensures
        final(out)@ == old(out)@ + digits(n as nat),
    decreases n,
{
    if n >= 10 {
        append_digits(out, n / 10);
    }
    let d: u8 = (n % 10) as u8;
    out.append(digit_str(d));
}

/// Appends the decimal numeral of `n` to `out`.
pub fn append_decimal(out: &mut String, n: i128)
    ensures
        final(out)@ == old(out)@ + decimal(n as int),
{
    if n < 0 {
        out.append("-");
        proof {
            reveal_strlit("-");
        }
        let magnitude: u128 = ((-(n + 1)) as u128) + 1;
        append_digits(out, magnitude);
    } else {
        append_digits(out, n as u128);
    }
}

/// Writes `n` as a decimal numeral.
pub fn decimal_string(n: i128) -> (s: String)
    ensures
        s@ == decimal(n as int),
{
    let mut out = String::new();
    append_decimal(&mut out, n);
    out
}

/// `n` spaces.
pub open spec fn spaces(n: nat) -> Seq<char> {
    Seq::new(n, |i: int| ' ')
}

/// `s` left-aligned in a column of at least `width` characters: spaces fill
/// the column on the right, and a text that is wider than the column stays
/// whole.
pub open spec fn left_aligned(s: Seq<char>, width: nat) -> Seq<char> {
    if s.len() >= width {
        s
    } else {
        s + spaces((width - s.len()) as nat)
    }
}

/// `s` in a column of exactly `width` characters: spaces fill the column on
/// the right, and a text that is wider than the column is cut to its first
/// `width` characters.
pub open spec fn in_column(s: Seq<char>, width: nat) -> Seq<char> {
    if s.len() >= width {
        s.subrange(0, width as int)
    } else {
        s + spaces((width - s.len()) as nat)
    }
}

/// A left-aligned text fills its column, or more where it is wider: it
/// begins with the text itself, and all that follows is spaces.
pub proof fn lemma_left_aligned_shape(s: Seq<char>, width: nat)
    ensures
        left_aligned(s, width).len() == if s.len() >= width {
            s.len()
        } else {
            width
        },
        left_aligned(s, width).subrange(0, s.len() as int) == s,
        forall|i: int|
            s.len() <= i < left_aligned(s, width).len() ==> left_aligned(s, width)[i] == ' ',
{
}

/// A text in a column is as wide as the column, whatever the text: it begins
/// with as much of the text as the column holds, and all that follows is
/// spaces.
pub proof fn lemma_in_column_shape(s: Seq<char>, width: nat)
    ensures
        in_column(s, width).len() == width,
        forall|i: int| 0 <= i < width && i < s.len() ==> in_column(s, width)[i] == s[i],
        forall|i: int| s.len() <= i < width ==> in_column(s, width)[i] == ' ',
{
}

/// Appends `s` to `out`, left-aligned in a column of at least `width`
/// characters.
pub fn append_left_aligned(out: &mut String, s: &str, width: usize)
    ensures
        final(out)@ == old(out)@ + left_aligned(s@, width as nat),
{
    out.append(s);
    let len = s.unicode_len();
    let mut filled: usize = len;
    proof {
        reveal_strlit(" ");
    }
    while filled < width
        invariant
            len == s@.len(),
            len <= filled,
            filled <= width || filled == len,
            " "@ == seq![' '],
            out@ == old(out)@ + s@ + spaces((filled - len) as nat),
        decreases width - filled,
    {
        out.append(" ");
        filled = filled + 1;
    }
}

/// Appends `s` to `out`, in a column of exactly `width` characters.
pub fn append_in_column(out: &mut String, s: &str, width: usize)
    ensures
        final(out)@ == old(out)@ + in_column(s@, width as nat),
{
    if s.unicode_len() > width {
        out.append(s.substring_char(0, width));
    } else {
        append_left_aligned(out, s, width);
        assert(left_aligned(s@, width as nat) =~= in_column(s@, width as nat));
    }
}

} // verus!
