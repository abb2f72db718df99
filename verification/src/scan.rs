//! The mathematical scanner.
//!
//! [`spec_next`] says, for an input sequence and a starting position, which
//! token the next pull produces and where scanning resumes. The executable
//! [`crate::lexer::Lexer`] is verified against it, and [`crate::laws`] proves
//! its general properties.

use vstd::prelude::*;
use crate::chars::{char_at, is_digit_char, spec_is_alphabetic, spec_is_alphanumeric,
    spec_is_whitespace};
use crate::decimal::dec_digits;
use crate::token::TokenModel;

verus! {

/// A character the number scanner consumes: an ASCII digit or `.`.
pub open spec fn is_number_char(c: char) -> bool {
    is_digit_char(c) || c == '.'
}

/// A character the identifier scanner consumes: alphanumeric or `_`.
pub open spec fn is_ident_char(c: char) -> bool {
    spec_is_alphanumeric(c) || c == '_'
}

/// A character that stops the string scanner: the closing quote or a line
/// terminator.
pub open spec fn is_string_stop_char(c: char) -> bool {
    c == '"' || c == '\n' || c == '\r'
}

/// The end of the run of characters satisfying `f` that starts at `i`: the
/// first index at or after `i` whose character fails `f`, or the length of
/// `s` if the run reaches the end.
pub open spec fn run_end(s: Seq<char>, i: int, f: spec_fn(char) -> bool) -> int
    decreases s.len() - i,
{
    if i < s.len() && f(s[i]) {
        run_end(s, i + 1, f)
    } else {
        i
    }
}

/// The first non-whitespace position at or after `i`.
pub open spec fn skip_ws(s: Seq<char>, i: int) -> int {
    run_end(s, i, |c: char| spec_is_whitespace(c))
}

/// The end of the maximal digit-and-dot run starting at `i`.
pub open spec fn num_end(s: Seq<char>, i: int) -> int {
    run_end(s, i, |c: char| is_number_char(c))
}

/// The end of the maximal identifier run starting at `i`.
pub open spec fn ident_end(s: Seq<char>, i: int) -> int {
    run_end(s, i, |c: char| is_ident_char(c))
}

/// The first position at or after `i` that stops a string scan.
pub open spec fn string_stop(s: Seq<char>, i: int) -> int {
    run_end(s, i, |c: char| !is_string_stop_char(c))
}

/// Bounds and contents of the whitespace run: everything before
/// `skip_ws(s, i)` is whitespace, and the character there (if any) is not.
pub proof fn lemma_skip_ws(s: Seq<char>, i: int)
    requires
        0 <= i <= s.len(),
    ensures
        i <= skip_ws(s, i) <= s.len(),
        forall|k: int| i <= k < skip_ws(s, i) ==> spec_is_whitespace(s[k]),
        skip_ws(s, i) < s.len() ==> !spec_is_whitespace(s[skip_ws(s, i)]),
    decreases s.len() - i,
{
    if i < s.len() && spec_is_whitespace(s[i]) {
        lemma_skip_ws(s, i + 1);
    }
}

/// Bounds and contents of the digit-and-dot run starting at `i`.
pub proof fn lemma_num_end(s: Seq<char>, i: int)
    requires
        0 <= i <= s.len(),
    ensures
        i <= num_end(s, i) <= s.len(),
        forall|k: int| i <= k < num_end(s, i) ==> is_number_char(s[k]),
        num_end(s, i) < s.len() ==> !is_number_char(s[num_end(s, i)]),
    decreases s.len() - i,
{
    if i < s.len() && is_number_char(s[i]) {
        lemma_num_end(s, i + 1);
    }
}

/// Bounds and contents of the identifier run starting at `i`.
pub proof fn lemma_ident_end(s: Seq<char>, i: int)
    requires
        0 <= i <= s.len(),
    ensures
        i <= ident_end(s, i) <= s.len(),
        forall|k: int| i <= k < ident_end(s, i) ==> is_ident_char(s[k]),
        ident_end(s, i) < s.len() ==> !is_ident_char(s[ident_end(s, i)]),
    decreases s.len() - i,
{
    if i < s.len() && is_ident_char(s[i]) {
        lemma_ident_end(s, i + 1);
    }
}

/// Bounds and contents of a string scan: nothing before `string_stop(s, i)`
/// stops it, and the character there (if any) does.
pub proof fn lemma_string_stop(s: Seq<char>, i: int)
    requires
        0 <= i <= s.len(),
    ensures
        i <= string_stop(s, i) <= s.len(),
        forall|k: int| i <= k < string_stop(s, i) ==> !is_string_stop_char(s[k]),
        string_stop(s, i) < s.len() ==> is_string_stop_char(s[string_stop(s, i)]),
    decreases s.len() - i,
{
    if i < s.len() && !is_string_stop_char(s[i]) {
        lemma_string_stop(s, i + 1);
    }
}

/// How many ASCII digits `t` holds.
pub open spec fn digit_count(t: Seq<char>) -> nat
    decreases t.len(),
{
    if t.len() == 0 {
        0
    } else {
        (if is_digit_char(t[0]) { 1nat } else { 0nat }) + digit_count(t.drop_first())
    }
}

/// How many `.` characters `t` holds.
pub open spec fn dot_count(t: Seq<char>) -> nat
    decreases t.len(),
{
    if t.len() == 0 {
        0
    } else {
        (if t[0] == '.' { 1nat } else { 0nat }) + dot_count(t.drop_first())
    }
}

/// Appending a character raises the digit count exactly when it is a digit,
/// and the dot count exactly when it is a `.`; neither count can exceed the
/// length.
pub proof fn lemma_counts_push(t: Seq<char>, c: char)
    ensures
        digit_count(t.push(c)) == digit_count(t) + (if is_digit_char(c) { 1nat } else { 0nat }),
        dot_count(t.push(c)) == dot_count(t) + (if c == '.' { 1nat } else { 0nat }),
        digit_count(t) <= t.len(),
        dot_count(t) <= t.len(),
    decreases t.len(),
{
    if t.len() == 0 {
        assert(t.push(c)[0] == c);
        assert(t.push(c).drop_first() =~= Seq::<char>::empty());
        assert(digit_count(Seq::<char>::empty()) == 0);
        assert(dot_count(Seq::<char>::empty()) == 0);
    } else {
        assert(t.push(c).drop_first() =~= t.drop_first().push(c));
        lemma_counts_push(t.drop_first(), c);
        assert(t.push(c)[0] == t[0]);
        assert(digit_count(t.push(c)) == (if is_digit_char(t[0]) { 1nat } else { 0nat })
            + digit_count(t.drop_first().push(c)));
        assert(dot_count(t.push(c)) == (if t[0] == '.' { 1nat } else { 0nat })
            + dot_count(t.drop_first().push(c)));
    }
}

/// A digit-and-dot run spells a valid numeric literal exactly when it holds
/// at least one digit and at most one `.`; this matches the decimal-literal
/// grammar of the standard floating-point parser on such runs.
pub open spec fn numeric_valid(t: Seq<char>) -> bool {
    digit_count(t) >= 1 && dot_count(t) <= 1
}

/// The token of a number scan starting at `i`, and the position after it:
/// the maximal digit-and-dot run, as a `NumericLiteral` if it is a valid
/// numeric literal and the `Unknown` sentinel otherwise.
pub open spec fn spec_number(s: Seq<char>, i: int) -> (TokenModel, int) {
    let e = num_end(s, i);
    let t = s.subrange(i, e);
    if numeric_valid(t) {
        (TokenModel::NumericLiteral(t), e)
    } else {
        (TokenModel::Unknown, e)
    }
}

/// The token of an identifier scan starting at `i`: the maximal run of
/// alphanumeric or `_` characters, always as an `Identifier` — no keyword
/// lookup takes place.
pub open spec fn spec_ident(s: Seq<char>, i: int) -> (TokenModel, int) {
    let e = ident_end(s, i);
    (TokenModel::Identifier(s.subrange(i, e)), e)
}

/// The message of the token for a string that no quote closes.
pub open spec fn unterminated_msg() -> Seq<char> {
    "Unterminated string literal"@
}

/// The token of a string scan whose opening quote stands at `i`. The scan
/// runs to the next quote, line terminator or end of input: a closing quote
/// yields the enclosed text with both quotes consumed; a line terminator or
/// the end of input yields an `Error`, and a line terminator stays
/// unconsumed.
pub open spec fn spec_string(s: Seq<char>, i: int) -> (TokenModel, int) {
    let e = string_stop(s, i + 1);
    if e < s.len() && s[e] == '"' {
        (TokenModel::StringLiteral(s.subrange(i + 1, e)), e + 1)
    } else {
        (TokenModel::Error(unterminated_msg()), e)
    }
}

/// The message of the token for a character no lexical rule matches: it
/// names the character and its character offset in the input.
pub open spec fn unknown_symbol_msg(c: char, i: int) -> Seq<char> {
    "Unrecognized symbol '"@ + seq![c] + "' at position "@ + dec_digits(i as nat)
}

/// The token of a punctuator or operator scan starting at `i`, and the
/// position after it. Multi-character forms are decided by at most two
/// characters of lookahead. Two oddities of the scanned language are part of
/// its definition: `:` followed by `;` forms `DoubleColon`, and the repeated
/// `<` and `>` forms without a trailing `=` come out as `NotEqual` rather
/// than as shift tokens. A character no arm matches yields an `Error` token
/// naming it and its position.
pub open spec fn spec_op(s: Seq<char>, i: int) -> (TokenModel, int) {
    let c = s[i];
    if c == '(' {
        (TokenModel::LeftParen, i + 1)
    } else if c == ')' {
        (TokenModel::RightParen, i + 1)
    } else if c == '{' {
        (TokenModel::LeftBrace, i + 1)
    } else if c == '}' {
        (TokenModel::RightBrace, i + 1)
    } else if c == '[' {
        (TokenModel::LeftBracket, i + 1)
    } else if c == ']' {
        (TokenModel::RightBracket, i + 1)
    } else if c == ';' {
        (TokenModel::Semicolon, i + 1)
    } else if c == ',' {
        (TokenModel::Comma, i + 1)
    } else if c == '?' {
        (TokenModel::QuestionMark, i + 1)
    } else if c == '.' {
        if char_at(s, i + 1) == '.' && char_at(s, i + 2) == '.' {
            (TokenModel::Ellipsis, i + 3)
        } else {
            (TokenModel::Dot, i + 1)
        }
    } else if c == ':' {
        if char_at(s, i + 1) == ';' {
            (TokenModel::DoubleColon, i + 2)
        } else {
            (TokenModel::Colon, i + 1)
        }
    } else if c == '=' {
        if char_at(s, i + 1) == '=' {
            if char_at(s, i + 2) == '=' {
                (TokenModel::StrictEqual, i + 3)
            } else {
                (TokenModel::DoubleEqual, i + 2)
            }
        } else {
            (TokenModel::Equals, i + 1)
        }
    } else if c == '+' {
        if char_at(s, i + 1) == '=' {
            (TokenModel::PlusEqual, i + 2)
        } else if char_at(s, i + 1) == '+' {
            (TokenModel::DoublePlus, i + 2)
        } else {
            (TokenModel::Plus, i + 1)
        }
    } else if c == '-' {
        if char_at(s, i + 1) == '=' {
            (TokenModel::MinusEqual, i + 2)
        } else if char_at(s, i + 1) == '-' {
            (TokenModel::DoubleMinus, i + 2)
        } else {
            (TokenModel::Minus, i + 1)
        }
    } else if c == '*' {
        if char_at(s, i + 1) == '=' {
            (TokenModel::AsteriskEqual, i + 2)
        } else {
            (TokenModel::Asterisk, i + 1)
        }
    } else if c == '/' {
        if char_at(s, i + 1) == '=' {
            (TokenModel::SlashEqual, i + 2)
        } else {
            (TokenModel::Slash, i + 1)
        }
    } else if c == '%' {
        if char_at(s, i + 1) == '=' {
            (TokenModel::PercentEqual, i + 2)
        } else {
            (TokenModel::Percent, i + 1)
        }
    } else if c == '!' {
        if char_at(s, i + 1) == '=' {
            if char_at(s, i + 2) == '=' {
                (TokenModel::StrictNotEqual, i + 3)
            } else {
                (TokenModel::NotEqual, i + 2)
            }
        } else {
            (TokenModel::ExclamationMark, i + 1)
        }
    } else if c == '&' {
        if char_at(s, i + 1) == '=' {
            (TokenModel::AmpersandEqual, i + 2)
        } else {
            (TokenModel::Ampersand, i + 1)
        }
    } else if c == '|' {
        if char_at(s, i + 1) == '=' {
            (TokenModel::PipeEqual, i + 2)
        } else {
            (TokenModel::Pipe, i + 1)
        }
    } else if c == '^' {
        if char_at(s, i + 1) == '=' {
            (TokenModel::CaretEqual, i + 2)
        } else {
            (TokenModel::Caret, i + 1)
        }
    } else if c == '<' {
        if char_at(s, i + 1) == '=' {
            (TokenModel::LessThanOrEqual, i + 2)
        } else if char_at(s, i + 1) == '<' {
            if char_at(s, i + 2) == '=' {
                (TokenModel::LeftShiftEqual, i + 3)
            } else {
                (TokenModel::NotEqual, i + 2)
            }
        } else {
            (TokenModel::LessThan, i + 1)
        }
    } else if c == '>' {
        if char_at(s, i + 1) == '=' {
            (TokenModel::GreaterThanOrEqual, i + 2)
        } else if char_at(s, i + 1) == '>' {
            if char_at(s, i + 2) == '=' {
                (TokenModel::RightShiftEqual, i + 3)
            } else {
                (TokenModel::NotEqual, i + 2)
            }
        } else {
            (TokenModel::GreaterThan, i + 1)
        }
    } else if c == '"' {
        spec_string(s, i)
    } else {
        (TokenModel::Error(unknown_symbol_msg(c, i)), i + 1)
    }
}

/// The next token pulled from `s` at position `pos`, and the position at
/// which the following pull resumes: whitespace is skipped first, then the
/// first remaining character picks the scanner — end of input gives `EOF`, a
/// digit a number scan, a letter or `_` an identifier scan, and anything
/// else the punctuator and operator scan.
pub open spec fn spec_next(s: Seq<char>, pos: int) -> (TokenModel, int) {
    let i = skip_ws(s, pos);
    if i >= s.len() {
        (TokenModel::EOF, s.len() as int)
    } else if is_digit_char(s[i]) {
        spec_number(s, i)
    } else if spec_is_alphabetic(s[i]) || s[i] == '_' {
        spec_ident(s, i)
    } else {
        spec_op(s, i)
    }
}

} // verus!
