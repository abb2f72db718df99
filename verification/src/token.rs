//! The lexical tokens, and their mathematical model.

use vstd::prelude::*;

verus! {

/// The reserved-word spellings of the language.
///
/// The scanner never consults this set: keywords come out of
/// [`crate::lexer::Lexer::get_next_token`] as ordinary [`Token::Identifier`]
/// values. The enumeration records the spellings for a future keyword-aware
/// consumer.
#[derive(Debug, PartialEq)]
pub enum ReservedWord {
    Break,
    Case,
    Catch,
    Class,
    Const,
    Continue,
    Debugger,
    Default,
    Delete,
    Do,
    Else,
    Enum,
    Export,
    Extends,
    False,
    Finally,
    For,
    Function,
    If,
    Import,
    In,
    Instanceof,
    Let,
    New,
    Null,
    Return,
    Super,
    Switch,
    This,
    Throw,
    True,
    Try,
    Typeof,
    Var,
    Void,
    While,
    With,
    Yield,
}

/// One lexical token.
///
/// `NumericLiteral` carries the scanned spelling of the number, a run of
/// ASCII digits holding at most one `.`; its numeric value is the standard
/// decimal value of that spelling, and converting it to a machine number is
/// the caller's concern. `Error` carries a human-readable message. `EOF` and
/// `Unknown` are sentinels: end of input, and a digit-and-dot run that is not
/// a valid numeric literal.
#[derive(Debug, PartialEq)]
pub enum Token {
    LeftParen,
    RightParen,
    LeftBrace,
    RightBrace,
    LeftBracket,
    RightBracket,
    Dot,
    Ellipsis,
    Semicolon,
    Comma,
    QuestionMark,
    Colon,
    DoubleColon,
    Equals,
    Plus,
    Minus,
    Asterisk,
    Slash,
    Percent,
    ExclamationMark,
    Ampersand,
    Pipe,
    Caret,
    LessThan,
    GreaterThan,
    LessThanOrEqual,
    GreaterThanOrEqual,
    DoubleEqual,
    NotEqual,
    StrictEqual,
    StrictNotEqual,
    LeftShift,
    RightShift,
    UnsignedRightShift,
    PlusEqual,
    MinusEqual,
    AsteriskEqual,
    SlashEqual,
    PercentEqual,
    AmpersandEqual,
    PipeEqual,
    CaretEqual,
    LeftShiftEqual,
    RightShiftEqual,
    UnsignedRightShiftEqual,
    DoublePlus,
    DoubleMinus,
    Arrow,
    DoubleQuote,
    SingleQuote,
    TemplateQuote,
    DoubleQuoteStringWrapper,
    SingleQuoteStringWrapper,
    TemplateStringWrapper,
    Identifier(String),
    NumericLiteral(String),
    StringLiteral(String),
    RegularExpressionLiteral(String),
    Template(String),
    LineTerminator,
    Whitespace,
    Comment,
    Error(String),
    Unknown,
    EOF,
}

/// The mathematical model of a [`Token`]: the same variants, with text
/// payloads as character sequences. Contracts and the specification scanner
/// in [`crate::scan`] speak of this type.
pub enum TokenModel {
    LeftParen,
    RightParen,
    LeftBrace,
    RightBrace,
    LeftBracket,
    RightBracket,
    Dot,
    Ellipsis,
    Semicolon,
    Comma,
    QuestionMark,
    Colon,
    DoubleColon,
    Equals,
    Plus,
    Minus,
    Asterisk,
    Slash,
    Percent,
    ExclamationMark,
    Ampersand,
    Pipe,
    Caret,
    LessThan,
    GreaterThan,
    LessThanOrEqual,
    GreaterThanOrEqual,
    DoubleEqual,
    NotEqual,
    StrictEqual,
    StrictNotEqual,
    LeftShift,
    RightShift,
    UnsignedRightShift,
    PlusEqual,
    MinusEqual,
    AsteriskEqual,
    SlashEqual,
    PercentEqual,
    AmpersandEqual,
    PipeEqual,
    CaretEqual,
    LeftShiftEqual,
    RightShiftEqual,
    UnsignedRightShiftEqual,
    DoublePlus,
    DoubleMinus,
    Arrow,
    DoubleQuote,
    SingleQuote,
    TemplateQuote,
    DoubleQuoteStringWrapper,
    SingleQuoteStringWrapper,
    TemplateStringWrapper,
    Identifier(Seq<char>),
    NumericLiteral(Seq<char>),
    StringLiteral(Seq<char>),
    RegularExpressionLiteral(Seq<char>),
    Template(Seq<char>),
    LineTerminator,
    Whitespace,
    Comment,
    Error(Seq<char>),
    Unknown,
    EOF,
}

impl View for Token {
    type V = TokenModel;

    open spec fn view(&self) -> TokenModel {
        match self {
            Token::LeftParen => TokenModel::LeftParen,
            Token::RightParen => TokenModel::RightParen,
            Token::LeftBrace => TokenModel::LeftBrace,
            Token::RightBrace => TokenModel::RightBrace,
            Token::LeftBracket => TokenModel::LeftBracket,
            Token::RightBracket => TokenModel::RightBracket,
            Token::Dot => TokenModel::Dot,
            Token::Ellipsis => TokenModel::Ellipsis,
            Token::Semicolon => TokenModel::Semicolon,
            Token::Comma => TokenModel::Comma,
            Token::QuestionMark => TokenModel::QuestionMark,
            Token::Colon => TokenModel::Colon,
            Token::DoubleColon => TokenModel::DoubleColon,
            Token::Equals => TokenModel::Equals,
            Token::Plus => TokenModel::Plus,
            Token::Minus => TokenModel::Minus,
            Token::Asterisk => TokenModel::Asterisk,
            Token::Slash => TokenModel::Slash,
            Token::Percent => TokenModel::Percent,
            Token::ExclamationMark => TokenModel::ExclamationMark,
            Token::Ampersand => TokenModel::Ampersand,
            Token::Pipe => TokenModel::Pipe,
            Token::Caret => TokenModel::Caret,
            Token::LessThan => TokenModel::LessThan,
            Token::GreaterThan => TokenModel::GreaterThan,
            Token::LessThanOrEqual => TokenModel::LessThanOrEqual,
            Token::GreaterThanOrEqual => TokenModel::GreaterThanOrEqual,
            Token::DoubleEqual => TokenModel::DoubleEqual,
            Token::NotEqual => TokenModel::NotEqual,
            Token::StrictEqual => TokenModel::StrictEqual,
            Token::StrictNotEqual => TokenModel::StrictNotEqual,
            Token::LeftShift => TokenModel::LeftShift,
            Token::RightShift => TokenModel::RightShift,
            Token::UnsignedRightShift => TokenModel::UnsignedRightShift,
            Token::PlusEqual => TokenModel::PlusEqual,
            Token::MinusEqual => TokenModel::MinusEqual,
            Token::AsteriskEqual => TokenModel::AsteriskEqual,
            Token::SlashEqual => TokenModel::SlashEqual,
            Token::PercentEqual => TokenModel::PercentEqual,
            Token::AmpersandEqual => TokenModel::AmpersandEqual,
            Token::PipeEqual => TokenModel::PipeEqual,
            Token::CaretEqual => TokenModel::CaretEqual,
            Token::LeftShiftEqual => TokenModel::LeftShiftEqual,
            Token::RightShiftEqual => TokenModel::RightShiftEqual,
            Token::UnsignedRightShiftEqual => TokenModel::UnsignedRightShiftEqual,
            Token::DoublePlus => TokenModel::DoublePlus,
            Token::DoubleMinus => TokenModel::DoubleMinus,
            Token::Arrow => TokenModel::Arrow,
            Token::DoubleQuote => TokenModel::DoubleQuote,
            Token::SingleQuote => TokenModel::SingleQuote,
            Token::TemplateQuote => TokenModel::TemplateQuote,
            Token::DoubleQuoteStringWrapper => TokenModel::DoubleQuoteStringWrapper,
            Token::SingleQuoteStringWrapper => TokenModel::SingleQuoteStringWrapper,
            Token::TemplateStringWrapper => TokenModel::TemplateStringWrapper,
            Token::Identifier(s) => TokenModel::Identifier(s@),
            Token::NumericLiteral(s) => TokenModel::NumericLiteral(s@),
            Token::StringLiteral(s) => TokenModel::StringLiteral(s@),
            Token::RegularExpressionLiteral(s) => TokenModel::RegularExpressionLiteral(s@),
            Token::Template(s) => TokenModel::Template(s@),
            Token::LineTerminator => TokenModel::LineTerminator,
            Token::Whitespace => TokenModel::Whitespace,
            Token::Comment => TokenModel::Comment,
            Token::Error(s) => TokenModel::Error(s@),
            Token::Unknown => TokenModel::Unknown,
            Token::EOF => TokenModel::EOF,
        }
    }
}

} // verus!
