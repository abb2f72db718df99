//! Character classification used by the scanner.
//!
//! The scanner needs Unicode-aware whitespace and letter classification. For
//! ASCII those classes are pinned down exactly; beyond ASCII they are given a
//! name and left to the standard library's Unicode tables.

use vstd::prelude::*;

verus! {

/// Whether a character above ASCII has the Unicode `White_Space` property.
pub uninterp spec fn non_ascii_whitespace(c: char) -> bool;

/// Whether a character above ASCII has the Unicode `Alphabetic` property.
pub uninterp spec fn non_ascii_alphabetic(c: char) -> bool;

/// Whether a character above ASCII lies in a Unicode numeric general
/// category.
pub uninterp spec fn non_ascii_numeric(c: char) -> bool;

/// Whitespace, as `char::is_whitespace` classifies it: within ASCII exactly
/// tab, line feed, vertical tab, form feed, carriage return and space.
pub open spec fn spec_is_whitespace(c: char) -> bool {
    if (c as u32) < 0x80 {
        c == ' ' || c == '\t' || c == '\n' || c == '\r' || c == '\u{b}' || c == '\u{c}'
    } else {
        non_ascii_whitespace(c)
    }
}

/// Alphabetic, as `char::is_alphabetic` classifies it: within ASCII exactly
/// the letters `A`..`Z` and `a`..`z`.
pub open spec fn spec_is_alphabetic(c: char) -> bool {
    if (c as u32) < 0x80 {
        (65 <= c as u32 && c as u32 <= 90) || (97 <= c as u32 && c as u32 <= 122)
    } else {
        non_ascii_alphabetic(c)
    }
}

/// Alphanumeric, as `char::is_alphanumeric` classifies it: alphabetic or
/// numeric, which within ASCII means exactly the letters and the decimal
/// digits.
pub open spec fn spec_is_alphanumeric(c: char) -> bool {
    if (c as u32) < 0x80 {
        (65 <= c as u32 && c as u32 <= 90) || (97 <= c as u32 && c as u32 <= 122)
            || is_digit_char(c)
    } else {
        non_ascii_alphabetic(c) || non_ascii_numeric(c)
    }
}

/// An ASCII decimal digit, `0`..`9`.
pub open spec fn is_digit_char(c: char) -> bool {
    48 <= c as u32 && c as u32 <= 57
}

/// Relies on `char::is_whitespace`: true exactly on characters with the
/// Unicode `White_Space` property, whose ASCII members are tab, line feed,
/// vertical tab, form feed, carriage return and space.
pub assume_specification[ char::is_whitespace ](c: char) -> (r: bool)
    ensures
        r == spec_is_whitespace(c),
        (c as u32) >= 0x80 ==> r == non_ascii_whitespace(c),
;

/// Relies on `char::is_alphabetic`: true exactly on characters with the
/// Unicode `Alphabetic` property, whose ASCII members are the letters.
pub assume_specification[ char::is_alphabetic ](c: char) -> (r: bool)
    ensures
        r == spec_is_alphabetic(c),
        (c as u32) >= 0x80 ==> r == non_ascii_alphabetic(c),
;

/// Relies on `char::is_alphanumeric`: true exactly on Unicode `Alphabetic`
/// or numeric characters, whose ASCII members are the letters and digits.
pub assume_specification[ char::is_alphanumeric ](c: char) -> (r: bool)
    ensures
        r == spec_is_alphanumeric(c),
        (c as u32) >= 0x80 ==> r == (non_ascii_alphabetic(c) || non_ascii_numeric(c)),
;

/// Decides whether `c` is an ASCII decimal digit.
pub fn is_dec_digit(c: char) -> (r: bool)
    ensures
        r == is_digit_char(c),
{
    let u: u32 = c as u32;
    48 <= u && u <= 57
}

/// The character of `s` at `i`, with a NUL sentinel outside the bounds.
pub open spec fn char_at(s: Seq<char>, i: int) -> char {
    if 0 <= i < s.len() {
        s[i]
    } else {
        '\0'
    }
}

} // verus!
