//! Fixed-width decimal formatting for the timestamp fields of the
//! front-matter header.

use vstd::prelude::*;

verus! {

/// The character for one decimal digit.
pub open spec fn digit_char(d: int) -> char
    recommends
        0 <= d < 10,
{
    if d == 0 {
        '0'
    } else if d == 1 {
        '1'
    } else if d == 2 {
        '2'
    } else if d == 3 {
        '3'
    } else if d == 4 {
        '4'
    } else if d == 5 {
        '5'
    } else if d == 6 {
        '6'
    } else if d == 7 {
        '7'
    } else if d == 8 {
        '8'
    } else {
        '9'
    }
}

/// A value below one hundred written with exactly two digits.
pub open spec fn two_digits(n: int) -> Seq<char>
    recommends
        0 <= n < 100,
{
    seq![digit_char(n / 10), digit_char(n % 10)]
}

/// A value below ten thousand written with exactly four digits.
pub open spec fn four_digits(n: int) -> Seq<char>
    recommends
        0 <= n < 10000,
{
    seq![
        digit_char(n / 1000),
        digit_char((n / 100) % 10),
        digit_char((n / 10) % 10),
        digit_char(n % 10),
    ]
}

/// Appends the character for a single decimal digit.
pub fn append_digit(out: &mut String, d: u32)
    requires
        d < 10,
    ensures
        final(out)@ == old(out)@ + seq![digit_char(d as int)],
{
    proof {
        reveal_strlit("0");
        reveal_strlit("1");
        reveal_strlit("2");
        reveal_strlit("3");
        reveal_strlit("4");
        reveal_strlit("5");
        reveal_strlit("6");
        reveal_strlit("7");
        reveal_strlit("8");
        reveal_strlit("9");
    }
    if d == 0 {
        out.append("0");
    } else if d == 1 {
        out.append("1");
    } else if d == 2 {
        out.append("2");
    } else if d == 3 {
        out.append("3");
    } else if d == 4 {
        out.append("4");
    } else if d == 5 {
        out.append("5");
    } else if d == 6 {
        out.append("6");
    } else if d == 7 {
        out.append("7");
    } else if d == 8 {
        out.append("8");
    } else {
        out.append("9");
    }
    proof {
        assert(out@ =~= old(out)@ + seq![digit_char(d as int)]);
    }
}

/// Appends a value below one hundred, zero-padded to two digits.
pub fn append_two_digits(out: &mut String, n: u32)
    requires
        n < 100,
    ensures
        final(out)@ == old(out)@ + two_digits(n as int),
{
    append_digit(out, n / 10);
    append_digit(out, n % 10);
    proof {
        assert(out@ =~= old(out)@ + two_digits(n as int));
    }
}

/// Appends a value below ten thousand, zero-padded to four digits.
pub fn append_four_digits(out: &mut String, n: u32)
    requires
        n < 10000,
    ensures
        final(out)@ == old(out)@ + four_digits(n as int),
{
    append_digit(out, n / 1000);
    append_digit(out, (n / 100) % 10);
    append_digit(out, (n / 10) % 10);
    append_digit(out, n % 10);
    proof {
        assert(out@ =~= old(out)@ + four_digits(n as int));
    }
}

} // verus!
