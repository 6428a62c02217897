//! Decimal text of integers, as it appears in the messages of this crate.

use vstd::prelude::*;

verus! {

/// Contract for `String::push` of the standard library, taken on trust
/// because vstd does not specify it: the call appends `ch` to the end of the
/// string and leaves the characters before it as they were.
pub assume_specification[ String::push ](s: &mut String, ch: char)
    ensures
        final(s)@ == old(s)@.push(ch),
;

/// The character that stands for the digit `d`, for `0 <= d <= 9`.
pub open spec fn digit_char(d: int) -> char {
    ('0' as int + d) as char
}

/// The decimal digits of `n`, most significant first, without leading zeros;
/// zero is written as the single digit `0`.
pub open spec fn decimal_digits(n: nat) -> Seq<char>
    decreases n,
{
    if n < 10 {
        seq![digit_char(n as int)]
    } else {
        decimal_digits(n / 10).push(digit_char((n % 10) as int))
    }
}

/// The decimal text of `i`: a minus sign if `i` is negative, then the digits
/// of its magnitude.
pub open spec fn decimal(i: int) -> Seq<char> {
    if i < 0 {
        seq!['-'] + decimal_digits((-i) as nat)
    } else {
        decimal_digits(i as nat)
    }
}

/// Appends the decimal digits of `n` to `out`.
fn push_digits(out: &mut String, n: u32)
    ensures
        final(out)@ == old(out)@ + decimal_digits(n as nat),
    decreases n,
{
    if n >= 10 {
        push_digits(out, n / 10);
    }
    let digit: u8 = (n % 10) as u8;
    out.push(('0' as u8 + digit) as char);
}

/// The decimal text of `x` as an owned string.
pub fn decimal_string(x: i32) -> (text: String)
    ensures
        text@ == decimal(x as int),
{
    let mut text = String::new();
    if x < 0 {
        text.push('-');
        // The magnitude of `i32::MIN` does not fit in `i32`, but it fits in `u32`.
        let magnitude: u32 = (-(x as i64)) as u32;
        push_digits(&mut text, magnitude);
    } else {
        push_digits(&mut text, x as u32);
    }
    text
}

} // verus!
