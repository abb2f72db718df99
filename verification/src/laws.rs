//! General properties of the scanner, proved for every input.

use vstd::prelude::*;
use crate::chars::{is_digit_char, spec_is_alphabetic, spec_is_whitespace};
use crate::scan::{digit_count, dot_count, ident_end, is_number_char, lemma_ident_end,
    lemma_num_end, lemma_skip_ws, lemma_string_stop, num_end, skip_ws, spec_next};
use crate::token::TokenModel;

verus! {

/// A character that may start an identifier: an ASCII letter or `_`.
pub open spec fn is_ascii_word_start(c: char) -> bool {
    (65 <= c as u32 && c as u32 <= 90) || (97 <= c as u32 && c as u32 <= 122) || c == '_'
}

/// A character that may continue an identifier: an ASCII letter, an ASCII
/// digit or `_`.
pub open spec fn is_ascii_word_char(c: char) -> bool {
    is_ascii_word_start(c) || is_digit_char(c)
}

/// An input that is one run of ASCII digits and dots, starting with a digit
/// and holding at most one `.`, scans in full to a `NumericLiteral` carrying
/// exactly that run.
pub proof fn lemma_digit_run_scans_to_numeric_literal(input: Seq<char>)
    requires
        input.len() >= 1,
        is_digit_char(input[0]),
        forall|k: int| 0 <= k < input.len() ==> is_number_char(input[k]),
        dot_count(input) <= 1,
    ensures
        spec_next(input, 0) == (TokenModel::NumericLiteral(input), input.len() as int),
{
    assert(!spec_is_whitespace(input[0]));
    assert(skip_ws(input, 0) == 0);
    lemma_num_end(input, 0);
    assert(num_end(input, 0) == input.len());
    assert(input.subrange(0, input.len() as int) =~= input);
    assert(digit_count(input) >= 1);
}

/// An input that is one run of ASCII digits and dots, starting with a digit
/// but holding two or more `.`, scans in full to the `Unknown` sentinel — no
/// partial numeric value comes out.
pub proof fn lemma_run_with_two_dots_scans_to_unknown(input: Seq<char>)
    requires
        input.len() >= 1,
        is_digit_char(input[0]),
        forall|k: int| 0 <= k < input.len() ==> is_number_char(input[k]),
        dot_count(input) >= 2,
    ensures
        spec_next(input, 0) == (TokenModel::Unknown, input.len() as int),
{
    assert(!spec_is_whitespace(input[0]));
    assert(skip_ws(input, 0) == 0);
    lemma_num_end(input, 0);
    assert(num_end(input, 0) == input.len());
    assert(input.subrange(0, input.len() as int) =~= input);
}

/// An input of the identifier shape — an ASCII letter or `_`, then ASCII
/// letters, digits and `_` — scans in full to an `Identifier` carrying
/// exactly that text; no keyword-specific token is ever produced.
pub proof fn lemma_word_scans_to_identifier(input: Seq<char>)
    requires
        input.len() >= 1,
        is_ascii_word_start(input[0]),
        forall|k: int| 0 <= k < input.len() ==> is_ascii_word_char(input[k]),
    ensures
        spec_next(input, 0) == (TokenModel::Identifier(input), input.len() as int),
{
    assert(!spec_is_whitespace(input[0]));
    assert(skip_ws(input, 0) == 0);
    assert(!is_digit_char(input[0]));
    assert(spec_is_alphabetic(input[0]) || input[0] == '_');
    lemma_ident_end(input, 0);
    assert(ident_end(input, 0) == input.len());
    assert(input.subrange(0, input.len() as int) =~= input);
}

/// Empty or whitespace-only input scans to `EOF` at once.
pub proof fn lemma_whitespace_only_input_scans_to_eof(input: Seq<char>)
    requires
        forall|k: int| 0 <= k < input.len() ==> spec_is_whitespace(input[k]),
    ensures
        spec_next(input, 0) == (TokenModel::EOF, input.len() as int),
{
    lemma_skip_ws(input, 0);
    assert(skip_ws(input, 0) == input.len());
}

/// Each scan stays within the input and consumes at least one character
/// until the input is exhausted; at the end it consumes nothing and yields
/// `EOF`.
pub proof fn lemma_scan_progress(s: Seq<char>, pos: int)
    requires
        0 <= pos <= s.len(),
    ensures
        pos <= spec_next(s, pos).1 <= s.len(),
        pos < s.len() ==> pos < spec_next(s, pos).1,
        pos == s.len() ==> spec_next(s, pos).1 == pos && spec_next(s, pos).0 == TokenModel::EOF,
{
    lemma_skip_ws(s, pos);
    let i = skip_ws(s, pos);
    if i < s.len() {
        if is_digit_char(s[i]) {
            lemma_num_end(s, i + 1);
            assert(num_end(s, i) == num_end(s, i + 1));
        } else if spec_is_alphabetic(s[i]) || s[i] == '_' {
            lemma_ident_end(s, i + 1);
            assert(ident_end(s, i) == ident_end(s, i + 1));
        } else if s[i] == '"' {
            lemma_string_stop(s, i + 1);
        }
    }
}

/// The position reached after `n` scans from `pos`.
pub open spec fn pos_after(s: Seq<char>, pos: int, n: nat) -> int
    decreases n,
{
    if n == 0 {
        pos
    } else {
        pos_after(s, spec_next(s, pos).1, (n - 1) as nat)
    }
}

/// The concatenation of the substrings that `n` successive scans from `pos`
/// consume, the whitespace each scan skips included.
pub open spec fn consumed_concat(s: Seq<char>, pos: int, n: nat) -> Seq<char>
    decreases n,
{
    if n == 0 {
        Seq::empty()
    } else {
        s.subrange(pos, spec_next(s, pos).1)
            + consumed_concat(s, spec_next(s, pos).1, (n - 1) as nat)
    }
}

/// After `n` scans the position still lies within the input, and has moved
/// forward by at least `n` characters unless it reached the end.
pub proof fn lemma_pos_after_bounds(s: Seq<char>, pos: int, n: nat)
    requires
        0 <= pos <= s.len(),
    ensures
        pos <= pos_after(s, pos, n) <= s.len(),
        pos + n <= pos_after(s, pos, n) || pos_after(s, pos, n) == s.len(),
    decreases n,
{
    if n > 0 {
        lemma_scan_progress(s, pos);
        lemma_pos_after_bounds(s, spec_next(s, pos).1, (n - 1) as nat);
    }
}

/// What `n` scans consume is exactly the stretch of the input between the
/// starting position and the position they reach.
pub proof fn lemma_consumed_concat(s: Seq<char>, pos: int, n: nat)
    requires
        0 <= pos <= s.len(),
    ensures
        consumed_concat(s, pos, n) == s.subrange(pos, pos_after(s, pos, n)),
    decreases n,
{
    if n == 0 {
        assert(s.subrange(pos, pos) =~= Seq::<char>::empty());
    } else {
        lemma_scan_progress(s, pos);
        let q = spec_next(s, pos).1;
        lemma_consumed_concat(s, q, (n - 1) as nat);
        lemma_pos_after_bounds(s, q, (n - 1) as nat);
        assert(s.subrange(pos, q) + s.subrange(q, pos_after(s, q, (n - 1) as nat))
            =~= s.subrange(pos, pos_after(s, pos, n)));
    }
}

/// Scanning loses and duplicates nothing: pulling as many tokens as the
/// input has characters reaches its end, and concatenating the exact
/// substrings the successive scans consume reconstructs the input.
pub proof fn lemma_scan_reconstructs_input(input: Seq<char>)
    ensures
        pos_after(input, 0, input.len()) == input.len(),
        consumed_concat(input, 0, input.len()) == input,
{
    lemma_pos_after_bounds(input, 0, input.len());
    lemma_consumed_concat(input, 0, input.len());
    assert(input.subrange(0, input.len() as int) =~= input);
}

} // verus!
