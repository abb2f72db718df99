//! Decimal rendering of positions, for diagnostic messages.

use vstd::prelude::*;

verus! {

/// Relies on `String::push`: appends the given character to the end of the
/// string.
pub assume_specification[ String::push ](s: &mut String, ch: char)
    ensures
        final(s)@ == old(s)@.push(ch),
;

/// The character for the decimal digit `d`, which must lie in `0 ..= 9`.
pub open spec fn dec_digit_char(d: int) -> char {
    ((48 + d) as u8) as char
}

/// The decimal spelling of `n`: most significant digit first, no sign, no
/// leading zero except for `n == 0` itself.
pub open spec fn dec_digits(n: nat) -> Seq<char>
    decreases n,
{
    if n < 10 {
        seq![dec_digit_char(n as int)]
    } else {
        dec_digits(n / 10).push(dec_digit_char((n % 10) as int))
    }
}

/// Renders `n` in decimal.
pub fn to_decimal_string(n: usize) -> (s: String)
    ensures
        s@ == dec_digits(n as nat),
    decreases n,
{
    let d: u8 = (n % 10) as u8 + 48;
    let c: char = d as char;
    if n < 10 {
        let mut s = String::new();
        s.push(c);
        proof {
            assert(s@ =~= seq![dec_digit_char(n as int)]);
        }
        s
    } else {
        let mut s = to_decimal_string(n / 10);
        s.push(c);
        s
    }
}

} // verus!
