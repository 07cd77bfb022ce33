//! The decimal text of an integer.
//!
//! [`decimal`] says what the text of an integer is: its digits, most
//! significant first, without leading zeros, and a minus sign in front of a
//! negative one. [`push_decimal`] writes that text at the end of a string.

use vstd::prelude::*;
use vstd::string::*;

verus! {

/// The character that stands for the digit `d`, for `d` from 0 to 9.
pub open spec fn digit(d: int) -> char
    recommends
        0 <= d < 10,
{
    "0123456789"@[d]
}

/// The digits of `n`, most significant first; a single `0` for zero.
pub open spec fn digits(n: nat) -> Seq<char>
    decreases n,
{
    if n < 10 {
        seq![digit(n as int)]
    } else {
        digits(n / 10).push(digit((n % 10) as int))
    }
}

/// The decimal text of `v`: its digits, after a minus sign if `v` is negative.
pub open spec fn decimal(v: int) -> Seq<char> {
    if v < 0 {
        seq!['-'] + digits((-v) as nat)
    } else {
        digits(v as nat)
    }
}

/// Writes the digits of `n` at the end of `text`.
fn push_digits(text: &mut String, n: u32)
    ensures
        final(text)@ == old(text)@ + digits(n as nat),
    decreases n,
{
    if n >= 10 {
        push_digits(text, n / 10);
    }
    let d: usize = (n % 10) as usize;
    let table = "0123456789";
    proof {
        reveal_strlit("0123456789");
    }
    let one = table.substring_ascii(d, d + 1);
    assert(one@ == seq![digit(d as int)]);
    text.append(one);
}

/// Writes the decimal text of `value` at the end of `text`.
pub fn push_decimal(text: &mut String, value: i32)
    ensures
        final(text)@ == old(text)@ + decimal(value as int),
{
    if value < 0 {
        text.append("-");
        proof {
            reveal_strlit("-");
        }
        assert("-"@ == seq!['-']);
        let magnitude: i64 = -(value as i64);
        push_digits(text, magnitude as u32);
    } else {
        push_digits(text, value as u32);
    }
}

} // verus!
