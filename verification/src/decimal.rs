//! Integers in decimal notation.

use vstd::prelude::*;
use vstd::string::StringExecFns;

verus! {

/// The character of one decimal digit.
pub open spec fn digit(d: nat) -> Seq<char> {
    if d == 0 {
        "0"@
    } else if d == 1 {
        "1"@
    } else if d == 2 {
        "2"@
    } else if d == 3 {
        "3"@
    } else if d == 4 {
        "4"@
    } else if d == 5 {
        "5"@
    } else if d == 6 {
        "6"@
    } else if d == 7 {
        "7"@
    } else if d == 8 {
        "8"@
    } else {
        "9"@
    }
}

/// The decimal digits of a natural number, most significant first, without
/// leading zeros.
pub open spec fn digits(n: nat) -> Seq<char>
    decreases n,
{
    if n < 10 {
        digit(n)
    } else {
        digits(n / 10) + digit(n % 10)
    }
}

/// An integer in decimal notation, with a minus sign if it is negative.
pub open spec fn decimal(i: int) -> Seq<char> {
    if i < 0 {
        "-"@ + digits((-i) as nat)
    } else {
        digits(i as nat)
    }
}

/// Returns the one digit `d` as text.
fn digit_str(d: u32) -> (r: &'static str)
    requires
        d < 10,
    ensures
        r@ == digit(d as nat),
{
    if d == 0 {
        "0"
    } else if d == 1 {
        "1"
    } else if d == 2 {
        "2"
    } else if d == 3 {
        "3"
    } else if d == 4 {
        "4"
    } else if d == 5 {
        "5"
    } else if d == 6 {
        "6"
    } else if d == 7 {
        "7"
    } else if d == 8 {
        "8"
    } else {
        "9"
    }
}

/// Appends the digits of `n` to `buf`.
fn push_digits(buf: &mut String, n: u32)
    ensures
        final(buf)@ == old(buf)@ + digits(n as nat),
    decreases n,
{
    if n >= 10 {
        push_digits(buf, n / 10);
    }
    buf.append(digit_str(n % 10));
}

/// Appends `x` in decimal notation to `buf`.
pub fn push_decimal(buf: &mut String, x: i32)
    ensures
        final(buf)@ == old(buf)@ + decimal(x as int),
{
    if x < 0 {
        buf.append("-");
        let magnitude: u32 = if x == i32::MIN {
            2147483648u32
        } else {
            (-x) as u32
        };
        push_digits(buf, magnitude);
    } else {
        push_digits(buf, x as u32);
    }
}

} // verus!
