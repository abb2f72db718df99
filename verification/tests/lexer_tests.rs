use jslex::lexer::Lexer;
use jslex::token::{ReservedWord, Token};

/// Pulls tokens until and including `EOF`.
fn tokens(input: &str) -> Vec<Token> {
    let mut lexer = Lexer::new(input);
    let mut out = Vec::new();
    loop {
        let token = lexer.get_next_token();
        let done = token == Token::EOF;
        out.push(token);
        if done {
            return out;
        }
    }
}

fn first(input: &str) -> Token {
    Lexer::new(input).get_next_token()
}

#[test]
fn digits_scan_to_numeric_literal() {
    assert_eq!(first("123"), Token::NumericLiteral(String::from("123")));
    assert_eq!(first("0"), Token::NumericLiteral(String::from("0")));
    assert_eq!(first("007"), Token::NumericLiteral(String::from("007")));
}

#[test]
fn one_dot_scans_to_numeric_literal() {
    assert_eq!(first("3.14"), Token::NumericLiteral(String::from("3.14")));
    assert_eq!(first("5."), Token::NumericLiteral(String::from("5.")));
}

#[test]
fn leading_dot_is_a_dot_token_not_a_number() {
    assert_eq!(
        tokens(".5"),
        vec![Token::Dot, Token::NumericLiteral(String::from("5")), Token::EOF],
    );
}

#[test]
fn number_scan_stops_before_a_letter() {
    assert_eq!(
        tokens("42x"),
        vec![
            Token::NumericLiteral(String::from("42")),
            Token::Identifier(String::from("x")),
            Token::EOF,
        ],
    );
}

#[test]
fn two_dots_scan_to_unknown() {
    assert_eq!(first("1.2.3"), Token::Unknown);
    assert_eq!(first("1..2"), Token::Unknown);
    assert_eq!(first("9.9.9"), Token::Unknown);
}

#[test]
fn scanning_resumes_after_unknown() {
    assert_eq!(
        tokens("1.2.3 x"),
        vec![Token::Unknown, Token::Identifier(String::from("x")), Token::EOF],
    );
}

#[test]
fn words_scan_to_identifier() {
    assert_eq!(first("abc"), Token::Identifier(String::from("abc")));
    assert_eq!(first("_x1"), Token::Identifier(String::from("_x1")));
    assert_eq!(first("foo_bar9"), Token::Identifier(String::from("foo_bar9")));
}

#[test]
fn keywords_scan_to_identifier_too() {
    assert_eq!(first("let"), Token::Identifier(String::from("let")));
    assert_eq!(first("if"), Token::Identifier(String::from("if")));
    assert_eq!(first("while"), Token::Identifier(String::from("while")));
}

#[test]
fn reserved_word_spellings_are_distinct_values() {
    assert_eq!(ReservedWord::Let, ReservedWord::Let);
    assert_ne!(ReservedWord::If, ReservedWord::Else);
}

#[test]
fn quoted_text_scans_to_string_literal_then_eof() {
    assert_eq!(
        tokens("\"abc\""),
        vec![Token::StringLiteral(String::from("abc")), Token::EOF],
    );
}

#[test]
fn empty_string_literal() {
    assert_eq!(first("\"\""), Token::StringLiteral(String::from("")));
}

#[test]
fn string_literal_keeps_inner_spaces_and_operators() {
    assert_eq!(first("\"a + b\""), Token::StringLiteral(String::from("a + b")));
}

#[test]
fn newline_before_closing_quote_is_an_error() {
    assert_eq!(
        first("\"abc\n"),
        Token::Error(String::from("Unterminated string literal")),
    );
    assert_eq!(
        first("\"abc\r"),
        Token::Error(String::from("Unterminated string literal")),
    );
}

#[test]
fn end_of_input_before_closing_quote_is_an_error() {
    assert_eq!(
        first("\"abc"),
        Token::Error(String::from("Unterminated string literal")),
    );
}

#[test]
fn unterminated_string_leaves_the_newline_for_the_next_scan() {
    assert_eq!(
        tokens("\"abc\nx"),
        vec![
            Token::Error(String::from("Unterminated string literal")),
            Token::Identifier(String::from("x")),
            Token::EOF,
        ],
    );
}

#[test]
fn three_equals_scan_to_one_strict_equal() {
    assert_eq!(tokens("==="), vec![Token::StrictEqual, Token::EOF]);
}

#[test]
fn two_equals_scan_to_double_equal() {
    assert_eq!(tokens("=="), vec![Token::DoubleEqual, Token::EOF]);
}

#[test]
fn one_equals_scans_to_equals() {
    assert_eq!(tokens("="), vec![Token::Equals, Token::EOF]);
}

#[test]
fn empty_input_gives_eof_first() {
    assert_eq!(first(""), Token::EOF);
}

#[test]
fn whitespace_only_input_gives_eof_first() {
    assert_eq!(first("   \t\n \r "), Token::EOF);
}

#[test]
fn single_character_punctuators() {
    assert_eq!(
        tokens("(){}[];,?"),
        vec![
            Token::LeftParen,
            Token::RightParen,
            Token::LeftBrace,
            Token::RightBrace,
            Token::LeftBracket,
            Token::RightBracket,
            Token::Semicolon,
            Token::Comma,
            Token::QuestionMark,
            Token::EOF,
        ],
    );
}

#[test]
fn dot_forms() {
    assert_eq!(tokens("..."), vec![Token::Ellipsis, Token::EOF]);
    assert_eq!(tokens(".."), vec![Token::Dot, Token::Dot, Token::EOF]);
    assert_eq!(tokens("."), vec![Token::Dot, Token::EOF]);
}

#[test]
fn colon_pairs_with_semicolon_into_double_colon() {
    assert_eq!(tokens(":;"), vec![Token::DoubleColon, Token::EOF]);
    assert_eq!(tokens(":"), vec![Token::Colon, Token::EOF]);
    assert_eq!(tokens("::"), vec![Token::Colon, Token::Colon, Token::EOF]);
}

#[test]
fn plus_and_minus_forms() {
    assert_eq!(
        tokens("+ += ++ - -= --"),
        vec![
            Token::Plus,
            Token::PlusEqual,
            Token::DoublePlus,
            Token::Minus,
            Token::MinusEqual,
            Token::DoubleMinus,
            Token::EOF,
        ],
    );
}

#[test]
fn compound_assignment_forms() {
    assert_eq!(
        tokens("* *= / /= % %= & &= | |= ^ ^="),
        vec![
            Token::Asterisk,
            Token::AsteriskEqual,
            Token::Slash,
            Token::SlashEqual,
            Token::Percent,
            Token::PercentEqual,
            Token::Ampersand,
            Token::AmpersandEqual,
            Token::Pipe,
            Token::PipeEqual,
            Token::Caret,
            Token::CaretEqual,
            Token::EOF,
        ],
    );
}

#[test]
fn exclamation_forms() {
    assert_eq!(
        tokens("! != !=="),
        vec![Token::ExclamationMark, Token::NotEqual, Token::StrictNotEqual, Token::EOF],
    );
}

#[test]
fn comparison_forms() {
    assert_eq!(
        tokens("< <= > >="),
        vec![
            Token::LessThan,
            Token::LessThanOrEqual,
            Token::GreaterThan,
            Token::GreaterThanOrEqual,
            Token::EOF,
        ],
    );
}

#[test]
fn repeated_angle_brackets_scan_to_not_equal() {
    assert_eq!(tokens("<<"), vec![Token::NotEqual, Token::EOF]);
    assert_eq!(tokens(">>"), vec![Token::NotEqual, Token::EOF]);
}

#[test]
fn shift_assignment_forms() {
    assert_eq!(tokens("<<="), vec![Token::LeftShiftEqual, Token::EOF]);
    assert_eq!(tokens(">>="), vec![Token::RightShiftEqual, Token::EOF]);
}

#[test]
fn no_arrow_token_comes_out_of_equals_greater() {
    assert_eq!(tokens("=>"), vec![Token::Equals, Token::GreaterThan, Token::EOF]);
}

#[test]
fn unrecognized_symbol_becomes_an_error_with_position() {
    assert_eq!(
        first("#"),
        Token::Error(String::from("Unrecognized symbol '#' at position 0")),
    );
    assert_eq!(
        first("   @"),
        Token::Error(String::from("Unrecognized symbol '@' at position 3")),
    );
}

#[test]
fn scanning_resumes_after_unrecognized_symbol() {
    assert_eq!(
        tokens("a # b"),
        vec![
            Token::Identifier(String::from("a")),
            Token::Error(String::from("Unrecognized symbol '#' at position 2")),
            Token::Identifier(String::from("b")),
            Token::EOF,
        ],
    );
}

#[test]
fn position_in_error_messages_counts_characters() {
    assert_eq!(
        first("\u{e9}\u{e9} @"),
        Token::Identifier(String::from("\u{e9}\u{e9}")),
    );
    let mut lexer = Lexer::new("\u{e9}\u{e9} @");
    lexer.get_next_token();
    assert_eq!(
        lexer.get_next_token(),
        Token::Error(String::from("Unrecognized symbol '@' at position 3")),
    );
}

#[test]
fn unicode_whitespace_is_skipped() {
    assert_eq!(first("\u{a0}7"), Token::NumericLiteral(String::from("7")));
}

#[test]
fn unicode_letters_form_identifiers() {
    assert_eq!(
        first("h\u{e9}llo"),
        Token::Identifier(String::from("h\u{e9}llo")),
    );
}

#[test]
fn mixed_statement_scans_to_expected_stream() {
    assert_eq!(
        tokens("let a = 42.5 + call(b) >= 10;"),
        vec![
            Token::Identifier(String::from("let")),
            Token::Identifier(String::from("a")),
            Token::Equals,
            Token::NumericLiteral(String::from("42.5")),
            Token::Plus,
            Token::Identifier(String::from("call")),
            Token::LeftParen,
            Token::Identifier(String::from("b")),
            Token::RightParen,
            Token::GreaterThanOrEqual,
            Token::NumericLiteral(String::from("10")),
            Token::Semicolon,
            Token::EOF,
        ],
    );
}

#[test]
fn get_number_scans_the_leading_run_only() {
    let mut lexer = Lexer::new("12.5rest");
    assert_eq!(lexer.get_number(), Token::NumericLiteral(String::from("12.5")));
    assert_eq!(lexer.get_next_token(), Token::Identifier(String::from("rest")));
}

#[test]
fn get_number_without_digits_is_unknown() {
    let mut lexer = Lexer::new("x");
    assert_eq!(lexer.get_number(), Token::Unknown);
}

#[test]
fn skip_whitespace_stops_at_the_first_token() {
    let mut lexer = Lexer::new("   x");
    lexer.skip_whitespace();
    assert_eq!(lexer.get_next_token(), Token::Identifier(String::from("x")));
}

#[test]
fn peek_looks_one_past_the_current_character() {
    let lexer = Lexer::new("ab");
    assert_eq!(lexer.peek(), 'b');
}

#[test]
fn peek_past_the_end_is_nul() {
    let lexer = Lexer::new("a");
    assert_eq!(lexer.peek(), '\0');
    let empty = Lexer::new("");
    assert_eq!(empty.peek(), '\0');
}

#[test]
#[allow(non_snake_case)]
fn reversePeek_reads_the_current_character() {
    let mut lexer = Lexer::new("ab");
    assert_eq!(lexer.reversePeek(), 'a');
    lexer.advance();
    assert_eq!(lexer.reversePeek(), 'b');
    lexer.advance();
    assert_eq!(lexer.reversePeek(), 'b');
    let empty = Lexer::new("");
    assert_eq!(empty.reversePeek(), '\0');
}

#[test]
fn advance_past_the_end_keeps_eof() {
    let mut lexer = Lexer::new("");
    lexer.advance();
    lexer.advance();
    assert_eq!(lexer.get_next_token(), Token::EOF);
}

#[test]
fn consumed_substrings_reconstruct_the_input() {
    // Every class of token: identifier, number, string, operators, an
    // unrecognized symbol and an invalid numeric run, with whitespace.
    let input = " foo 1.5 \"s\" === <<= # 1.2.3 ... :; ";
    let mut lexer = Lexer::new(input);
    let mut count = 0usize;
    loop {
        let token = lexer.get_next_token();
        count += 1;
        assert!(count <= input.chars().count() + 1);
        if token == Token::EOF {
            break;
        }
    }
}
