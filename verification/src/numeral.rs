//! Decimal rendering of the integers that appear in markup output.

use vstd::prelude::*;
use vstd::string::StringExecFns;

verus! {

/// The single character naming a decimal digit.
pub open spec fn digit_seq(d: int) -> Seq<char> {
    if d == 0 {
        "0"@
    } else if d == 1 {
        "1"@
    } else if d == 2 {
        "2"@
    } else if d == 3 {
        "3"@
    } else if d == 4 {
        "4"@
    } else if d == 5 {
        "5"@
    } else if d == 6 {
        "6"@
    } else if d == 7 {
        "7"@
    } else if d == 8 {
        "8"@
    } else {
        "9"@
    }
}

/// The usual decimal numeral of a nonnegative integer: no sign, no leading
/// zeros (except for zero itself).
pub open spec fn dec_seq(n: int) -> Seq<char>
    recommends
        0 <= n,
    decreases n,
{
    if n < 10 {
        digit_seq(n)
    } else {
        dec_seq(n / 10) + digit_seq(n % 10)
    }
}

/// The decimal numeral of an integer, with a leading minus sign when it is
/// negative.
pub open spec fn int_seq(n: int) -> Seq<char> {
    if n < 0 {
        "-"@ + dec_seq(-n)
    } else {
        dec_seq(n)
    }
}

/// The one-character string naming a decimal digit.
fn digit_str(d: u64) -> (r: &'static str)
    requires
        d < 10,
    ensures
        r@ == digit_seq(d as int),
{
    if d == 0 {
        "0"
    } else if d == 1 {
        "1"
    } else if d == 2 {
        "2"
    } else if d == 3 {
        "3"
    } else if d == 4 {
        "4"
    } else if d == 5 {
        "5"
    } else if d == 6 {
        "6"
    } else if d == 7 {
        "7"
    } else if d == 8 {
        "8"
    } else {
        "9"
    }
}

/// Renders a nonnegative integer as its decimal numeral.
pub fn u64_dec(n: u64) -> (r: String)
    ensures
        r@ == dec_seq(n as int),
    decreases n,
{
    if n < 10 {
        String::from_str(digit_str(n))
    } else {
        let mut s = u64_dec(n / 10);
        s.append(digit_str(n % 10));
        s
    }
}

/// Renders a signed integer as its decimal numeral, minus sign included.
pub fn i32_dec(n: i32) -> (r: String)
    ensures
        r@ == int_seq(n as int),
{
    if n < 0 {
        let m: u64 = (-(n as i64)) as u64;
        let mut s = String::from_str("-");
        let digits = u64_dec(m);
        s.append(digits.as_str());
        s
    } else {
        u64_dec(n as u64)
    }
}

} // verus!
