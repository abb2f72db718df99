//! The executable lexer.
//!
//! A [`Lexer`] owns the input as an indexed character buffer together with a
//! cursor and a cached current character, and hands out one token per call of
//! [`Lexer::get_next_token`]. Every token-producing operation is verified
//! against the mathematical scanner of [`crate::scan`].

use vstd::prelude::*;
use vstd::string::StrSliceExecFns;
use vstd::string::StringExecFns;
use crate::chars::{char_at, is_dec_digit, spec_is_whitespace};
use crate::decimal::to_decimal_string;
use crate::scan::{digit_count, dot_count, ident_end, is_ident_char, is_number_char,
    lemma_counts_push, num_end, skip_ws, spec_ident, spec_next, spec_number, spec_op,
    spec_string, string_stop, unknown_symbol_msg};
use crate::token::Token;

verus! {

/// The lexer: an immutable input buffer, a cursor pointing at the next
/// unread character, and the cached current character, which is `None` only
/// once the buffer is exhausted.
pub struct Lexer {
    input: Vec<char>,
    position: usize,
    current_char: Option<char>,
}

impl Lexer {
    /// The input text.
    pub closed spec fn text(self) -> Seq<char> {
        self.input@
    }

    /// The structural invariant: the cursor stays within the buffer, the
    /// cached current character is the buffer element just before the
    /// cursor, and it is `None` exactly at the end of the input.
    pub closed spec fn wf(self) -> bool {
        &&& self.position <= self.input@.len()
        &&& match self.current_char {
            Some(c) => self.position >= 1 && c == self.input@[self.position - 1],
            None => self.position == self.input@.len(),
        }
    }

    /// The scanning position: the index of the current character, which is
    /// the next one a scan consumes; the input length once exhausted.
    pub closed spec fn cursor(self) -> int {
        match self.current_char {
            Some(c) => self.position - 1,
            None => self.input@.len() as int,
        }
    }

    /// Builds a lexer over `input`, with the first character (if any) primed
    /// as the current character and the scanning position at the start.
    pub fn new(input: &str) -> (lexer: Lexer)
        ensures
            lexer.wf(),
            lexer.text() == input@,
            lexer.cursor() == 0,
    {
        let n: usize = input.unicode_len();
        let mut buf: Vec<char> = Vec::new();
        let mut i: usize = 0;
        while i < n
            invariant
                i <= n,
                n == input@.len(),
                buf@ == input@.subrange(0, i as int),
            decreases n - i,
        {
            buf.push(input.get_char(i));
            i = i + 1;
            proof {
                assert(buf@ =~= input@.subrange(0, i as int));
            }
        }
        proof {
            assert(buf@ =~= input@);
        }
        if buf.len() > 0 {
            let first: char = buf[0];
            Lexer { input: buf, position: 1, current_char: Some(first) }
        } else {
            Lexer { input: buf, position: 0, current_char: None }
        }
    }

    /// The current character, with a NUL sentinel once the input is
    /// exhausted.
    fn get_current_char(&self) -> (c: char)
        requires
            self.wf(),
        ensures
            c == char_at(self.text(), self.cursor()),
    {
        match self.current_char {
            Some(curr) => curr,
            None => '\0',
        }
    }

    /// Consumes the current character: caches the buffer element at the
    /// cursor and moves the cursor past it, or caches `None` at the end of
    /// the input. The only mutator of the cursor.
    pub fn advance(&mut self)
        requires
            old(self).wf(),
        ensures
            final(self).wf(),
            final(self).text() == old(self).text(),
            final(self).cursor() == if old(self).cursor() < old(self).text().len() as int {
                old(self).cursor() + 1
            } else {
                old(self).cursor()
            },
    {
        if self.position < self.input.len() {
            self.current_char = Some(self.input[self.position]);
            self.position = self.position + 1;
        } else {
            self.current_char = None;
        }
    }

    /// Whether the current character exists and is whitespace.
    fn current_is_whitespace(&self) -> (r: bool)
        requires
            self.wf(),
        ensures
            r == (self.cursor() < self.text().len() as int
                && spec_is_whitespace(self.text()[self.cursor()])),
    {
        match self.current_char {
            Some(ch) => ch.is_whitespace(),
            None => false,
        }
    }

    /// Whether the current character exists and feeds a number scan.
    fn current_is_number_char(&self) -> (r: bool)
        requires
            self.wf(),
        ensures
            r == (self.cursor() < self.text().len() as int
                && is_number_char(self.text()[self.cursor()])),
    {
        match self.current_char {
            Some(ch) => is_dec_digit(ch) || ch == '.',
            None => false,
        }
    }

    /// Whether the current character exists and feeds an identifier scan.
    fn current_is_ident_char(&self) -> (r: bool)
        requires
            self.wf(),
        ensures
            r == (self.cursor() < self.text().len() as int
                && is_ident_char(self.text()[self.cursor()])),
    {
        match self.current_char {
            Some(ch) => ch.is_alphanumeric() || ch == '_',
            None => false,
        }
    }

    /// Advances past whitespace, so that the current character (if any) is
    /// not whitespace; produces no token.
    pub fn skip_whitespace(&mut self)
        requires
            old(self).wf(),
        ensures
            final(self).wf(),
            final(self).text() == old(self).text(),
            final(self).cursor() == skip_ws(old(self).text(), old(self).cursor()),
    {
        while self.current_is_whitespace()
            invariant
                self.wf(),
                self.text() == old(self).text(),
                skip_ws(self.text(), self.cursor()) == skip_ws(old(self).text(), old(self).cursor()),
            decreases self.text().len() - self.cursor(),
        {
            proof {
                assert(skip_ws(self.text(), self.cursor())
                    == skip_ws(self.text(), self.cursor() + 1));
            }
            self.advance();
        }
        proof {
            assert(skip_ws(self.text(), self.cursor()) == self.cursor());
        }
    }

    /// Scans the maximal run of ASCII digits and `.` characters starting at
    /// the current one, consuming it whole. The run becomes a
    /// `NumericLiteral` carrying its exact text when it is a valid numeric
    /// literal — it holds a digit and at most one `.` — and the `Unknown`
    /// sentinel otherwise; the scan itself is permissive and validates only
    /// after consuming the run.
    pub fn get_number(&mut self) -> (token: Token)
        requires
            old(self).wf(),
        ensures
            final(self).wf(),
            final(self).text() == old(self).text(),
            token@ == spec_number(old(self).text(), old(self).cursor()).0,
            final(self).cursor() == spec_number(old(self).text(), old(self).cursor()).1,
    {
        let ghost t = old(self).text();
        let ghost i0 = old(self).cursor();
        let mut number = String::new();
        let mut digits: usize = 0;
        let mut dots: usize = 0;
        while self.current_is_number_char()
            invariant
                self.wf(),
                self.text() == t,
                0 <= i0 <= self.cursor(),
                num_end(t, self.cursor()) == num_end(t, i0),
                number@ == t.subrange(i0, self.cursor()),
                digits == digit_count(number@),
                dots == dot_count(number@),
                digits <= self.cursor() - i0,
                dots <= self.cursor() - i0,
            decreases t.len() - self.cursor(),
        {
            let ch = self.get_current_char();
            proof {
                lemma_counts_push(number@, ch);
                assert(number@.push(ch) =~= t.subrange(i0, self.cursor() + 1));
                assert(num_end(t, self.cursor()) == num_end(t, self.cursor() + 1));
            }
            number.push(ch);
            if is_dec_digit(ch) {
                digits = digits + 1;
            } else {
                dots = dots + 1;
            }
            self.advance();
        }
        proof {
            assert(num_end(t, self.cursor()) == self.cursor());
        }
        if digits >= 1 && dots <= 1 {
            Token::NumericLiteral(number)
        } else {
            Token::Unknown
        }
    }

    /// Scans the maximal run of alphanumeric and `_` characters starting at
    /// the current one, consuming it whole; the run comes back as an
    /// `Identifier` carrying its exact text, unconditionally — no
    /// reserved-word lookup takes place.
    fn get_identifier(&mut self) -> (token: Token)
        requires
            old(self).wf(),
        ensures
            final(self).wf(),
            final(self).text() == old(self).text(),
            token@ == spec_ident(old(self).text(), old(self).cursor()).0,
            final(self).cursor() == spec_ident(old(self).text(), old(self).cursor()).1,
    {
        let ghost t = old(self).text();
        let ghost i0 = old(self).cursor();
        let mut identifier = String::new();
        while self.current_is_ident_char()
            invariant
                self.wf(),
                self.text() == t,
                0 <= i0 <= self.cursor(),
                ident_end(t, self.cursor()) == ident_end(t, i0),
                identifier@ == t.subrange(i0, self.cursor()),
            decreases t.len() - self.cursor(),
        {
            let ch = self.get_current_char();
            proof {
                assert(identifier@.push(ch) =~= t.subrange(i0, self.cursor() + 1));
                assert(ident_end(t, self.cursor()) == ident_end(t, self.cursor() + 1));
            }
            identifier.push(ch);
            self.advance();
        }
        proof {
            assert(ident_end(t, self.cursor()) == self.cursor());
        }
        Token::Identifier(identifier)
    }

    /// The character just after the current one, with a NUL sentinel past
    /// the end of the input: one character of lookahead, consuming nothing.
    pub fn peek(&self) -> (c: char)
        requires
            self.wf(),
        ensures
            c == char_at(self.text(), self.cursor() + 1),
    {
        if self.position < self.input.len() {
            self.input[self.position]
        } else {
            '\0'
        }
    }

    /// Pulls the next token, advancing the lexer past the characters that
    /// form it. Whitespace is skipped first; then the current character picks
    /// the scanner: end of input gives `EOF`, an ASCII digit a number scan, an
    /// alphabetic character or `_` an identifier scan, and anything else the
    /// punctuator and operator dispatch, in which multi-character operators
    /// are decided by lookahead, `"` scans a string literal to its closing
    /// quote or to an `Error` at a line terminator or at the end of input,
    /// and a character no rule matches yields an `Error` token naming the
    /// character and its position.
    pub fn get_next_token(&mut self) -> (token: Token)
        requires
            old(self).wf(),
        ensures
            final(self).wf(),
            final(self).text() == old(self).text(),
            token@ == spec_next(old(self).text(), old(self).cursor()).0,
            final(self).cursor() == spec_next(old(self).text(), old(self).cursor()).1,
    {
        let ghost t = old(self).text();
        let ghost start = old(self).cursor();
        self.skip_whitespace();
        let ghost i = self.cursor();
        let opt = self.current_char;
        match opt {
            None => Token::EOF,
            Some(ch) => {
                if is_dec_digit(ch) {
                    self.get_number()
                } else if ch.is_alphabetic() || ch == '_' {
                    self.get_identifier()
                } else {
                    proof {
                        assert(spec_next(t, start) == spec_op(t, i));
                    }
                    match ch {
                        '(' => {
                            self.advance();
                            Token::LeftParen
                        }
                        ')' => {
                            self.advance();
                            Token::RightParen
                        }
                        '{' => {
                            self.advance();
                            Token::LeftBrace
                        }
                        '}' => {
                            self.advance();
                            Token::RightBrace
                        }
                        '[' => {
                            self.advance();
                            Token::LeftBracket
                        }
                        ']' => {
                            self.advance();
                            Token::RightBracket
                        }
                        ';' => {
                            self.advance();
                            Token::Semicolon
                        }
                        ',' => {
                            self.advance();
                            Token::Comma
                        }
                        '?' => {
                            self.advance();
                            Token::QuestionMark
                        }
                        '.' => {
                            self.advance();
                            if self.get_current_char() == '.' && self.peek() == '.' {
                                self.advance();
                                self.advance();
                                Token::Ellipsis
                            } else {
                                Token::Dot
                            }
                        }
                        ':' => {
                            self.advance();
                            if self.get_current_char() == ';' {
                                self.advance();
                                Token::DoubleColon
                            } else {
                                Token::Colon
                            }
                        }
                        '=' => {
                            self.advance();
                            if self.get_current_char() == '=' {
                                self.advance();
                                if self.get_current_char() == '=' {
                                    self.advance();
                                    Token::StrictEqual
                                } else {
                                    Token::DoubleEqual
                                }
                            } else {
                                Token::Equals
                            }
                        }
                        '+' => {
                            self.advance();
                            if self.get_current_char() == '=' {
                                self.advance();
                                Token::PlusEqual
                            } else if self.get_current_char() == '+' {
                                self.advance();
                                Token::DoublePlus
                            } else {
                                Token::Plus
                            }
                        }
                        '-' => {
                            self.advance();
                            if self.get_current_char() == '=' {
                                self.advance();
                                Token::MinusEqual
                            } else if self.get_current_char() == '-' {
                                self.advance();
                                Token::DoubleMinus
                            } else {
                                Token::Minus
                            }
                        }
                        '*' => {
                            self.advance();
                            if self.get_current_char() == '=' {
                                self.advance();
                                Token::AsteriskEqual
                            } else {
                                Token::Asterisk
                            }
                        }
                        '/' => {
                            self.advance();
                            if self.get_current_char() == '=' {
                                self.advance();
                                Token::SlashEqual
                            } else {
                                Token::Slash
                            }
                        }
                        '%' => {
                            self.advance();
                            if self.get_current_char() == '=' {
                                self.advance();
                                Token::PercentEqual
                            } else {
                                Token::Percent
                            }
                        }
                        '!' => {
                            self.advance();
                            if self.get_current_char() == '=' {
                                self.advance();
                                if self.get_current_char() == '=' {
                                    self.advance();
                                    Token::StrictNotEqual
                                } else {
                                    Token::NotEqual
                                }
                            } else {
                                Token::ExclamationMark
                            }
                        }
                        '&' => {
                            self.advance();
                            if self.get_current_char() == '=' {
                                self.advance();
                                Token::AmpersandEqual
                            } else {
                                Token::Ampersand
                            }
                        }
                        '|' => {
                            self.advance();
                            if self.get_current_char() == '=' {
                                self.advance();
                                Token::PipeEqual
                            } else {
                                Token::Pipe
                            }
                        }
                        '^' => {
                            self.advance();
                            if self.get_current_char() == '=' {
                                self.advance();
                                Token::CaretEqual
                            } else {
                                Token::Caret
                            }
                        }
                        '<' => {
                            self.advance();
                            if self.get_current_char() == '=' {
                                self.advance();
                                Token::LessThanOrEqual
                            } else if self.get_current_char() == '<' {
                                self.advance();
                                if self.get_current_char() == '=' {
                                    self.advance();
                                    Token::LeftShiftEqual
                                } else {
                                    Token::NotEqual
                                }
                            } else {
                                Token::LessThan
                            }
                        }
                        '>' => {
                            self.advance();
                            if self.get_current_char() == '=' {
                                self.advance();
                                Token::GreaterThanOrEqual
                            } else if self.get_current_char() == '>' {
                                self.advance();
                                if self.get_current_char() == '=' {
                                    self.advance();
                                    Token::RightShiftEqual
                                } else {
                                    Token::NotEqual
                                }
                            } else {
                                Token::GreaterThan
                            }
                        }
                        '"' => {
                            self.advance();
                            let ghost i1 = self.cursor();
                            let mut value = String::new();
                            loop
                                invariant
                                    self.wf(),
                                    self.text() == t,
                                    t == old(self).text(),
                                    start == old(self).cursor(),
                                    0 <= i < t.len(),
                                    i1 == i + 1,
                                    spec_next(t, start) == spec_string(t, i),
                                    i1 <= self.cursor() <= t.len(),
                                    string_stop(t, self.cursor()) == string_stop(t, i1),
                                    value@ == t.subrange(i1, self.cursor()),
                                decreases t.len() - self.cursor(),
                            {
                                let copt = self.current_char;
                                match copt {
                                    None => {
                                        proof {
                                            assert(string_stop(t, self.cursor())
                                                == self.cursor());
                                        }
                                        return Token::Error(
                                            String::from_str("Unterminated string literal"),
                                        );
                                    }
                                    Some(c2) => {
                                        if c2 == '"' {
                                            proof {
                                                assert(string_stop(t, self.cursor())
                                                    == self.cursor());
                                            }
                                            self.advance();
                                            return Token::StringLiteral(value);
                                        } else if c2 == '\n' || c2 == '\r' {
                                            proof {
                                                assert(string_stop(t, self.cursor())
                                                    == self.cursor());
                                            }
                                            return Token::Error(
                                                String::from_str("Unterminated string literal"),
                                            );
                                        } else {
                                            proof {
                                                assert(value@.push(c2)
                                                    =~= t.subrange(i1, self.cursor() + 1));
                                                assert(string_stop(t, self.cursor())
                                                    == string_stop(t, self.cursor() + 1));
                                            }
                                            value.push(c2);
                                            self.advance();
                                        }
                                    }
                                }
                            }
                        }
                        _ => {
                            let pos_idx: usize = self.position - 1;
                            let mut msg = String::from_str("Unrecognized symbol '");
                            msg.push(ch);
                            msg.append("' at position ");
                            let rendered = to_decimal_string(pos_idx);
                            msg.append(rendered.as_str());
                            self.advance();
                            proof {
                                assert(msg@ =~= unknown_symbol_msg(ch, i));
                            }
                            Token::Error(msg)
                        }
                    }
                }
            }
        }
    }

    /// The character the last `advance` consumed — the current character, or
    /// the final character of the input once it is exhausted — with a NUL
    /// sentinel on empty input: one character of lookbehind, consuming
    /// nothing.
    #[allow(non_snake_case)]
    pub fn reversePeek(&self) -> (c: char)
        requires
            self.wf(),
        ensures
            c == char_at(
                self.text(),
                if self.cursor() < self.text().len() as int {
                    self.cursor()
                } else {
                    self.text().len() - 1
                },
            ),
    {
        if self.position >= 1 {
            self.input[self.position - 1]
        } else {
            '\0'
        }
    }
}

} // verus!
