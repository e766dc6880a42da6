//! Formatting of fixed-point values held as whole tenths of a unit.
//!
//! A coordinate of, say, `592.6` units is carried as the integer `5926`
//! and rendered with exactly one decimal digit, `"592.6"`.

use vstd::prelude::*;
use vstd::string::StringExecFns;

verus! {

/// The character for the decimal digit `d`.
pub open spec fn spec_digit(d: int) -> Seq<char> {
    if d == 0 {
        "0"@
    } else if d == 1 {
        "1"@
    } else if d == 2 {
        "2"@
    } else if d == 3 {
        "3"@
    } else if d == 4 {
        "4"@
    } else if d == 5 {
        "5"@
    } else if d == 6 {
        "6"@
    } else if d == 7 {
        "7"@
    } else if d == 8 {
        "8"@
    } else {
        "9"@
    }
}

/// The decimal digits of `n >= 0`, most significant first, without a sign
/// and without leading zeros (except for `n == 0` itself).
pub open spec fn spec_decimal(n: int) -> Seq<char>
    decreases n,
{
    if n < 10 {
        spec_digit(n)
    } else {
        spec_decimal(n / 10) + spec_digit(n % 10)
    }
}

/// The one-decimal rendering of `t` tenths: an optional minus sign, the
/// integer part, a decimal point, and exactly one digit.
pub open spec fn spec_tenths(t: int) -> Seq<char> {
    let m = if t < 0 {
        -t
    } else {
        t
    };
    (if t < 0 {
        "-"@
    } else {
        Seq::<char>::empty()
    }) + spec_decimal(m / 10) + "."@ + spec_digit(m % 10)
}

/// The literal for one decimal digit.
fn digit_str(d: u64) -> (s: &'static str)
    requires
        d < 10,
    ensures
        s@ == spec_digit(d as int),
{
    if d == 0 {
        "0"
    } else if d == 1 {
        "1"
    } else if d == 2 {
        "2"
    } else if d == 3 {
        "3"
    } else if d == 4 {
        "4"
    } else if d == 5 {
        "5"
    } else if d == 6 {
        "6"
    } else if d == 7 {
        "7"
    } else if d == 8 {
        "8"
    } else {
        "9"
    }
}

/// Appends the decimal digits of `n` to `buf`.
fn push_decimal(n: u64, buf: &mut String)
    ensures
        final(buf)@ == old(buf)@ + spec_decimal(n as int),
    decreases n,
{
    if n >= 10 {
        push_decimal(n / 10, buf);
    }
    let s = digit_str(n % 10);
    buf.append(s);
    proof {
        if n >= 10 {
            assert(final(buf)@ =~= old(buf)@ + spec_decimal(n as int));
        }
    }
}

/// Renders `t` tenths with one decimal digit, e.g. `5926` as `"592.6"`
/// and `-5` as `"-0.5"`.
pub fn format_tenths(t: i64) -> (s: String)
    ensures
        s@ == spec_tenths(t as int),
{
    let mut buf = String::new();
    let m: u64 = if t >= 0 {
        t as u64
    } else {
        (-(t as i128)) as u64
    };
    if t < 0 {
        buf.append("-");
    }
    push_decimal(m / 10, &mut buf);
    buf.append(".");
    let d = digit_str(m % 10);
    buf.append(d);
    proof {
        assert(buf@ =~= spec_tenths(t as int));
    }
    buf
}

} // verus!
