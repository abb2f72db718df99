//! A lexer for a small JavaScript-like language.
//!
//! The library turns source text into a stream of [`token::Token`]s, pulled
//! one at a time from a [`lexer::Lexer`]. The scanning behaviour is specified
//! by the mathematical scanner in [`scan`], and the executable lexer is
//! verified against it; [`laws`] proves the general properties of the
//! scanner, among them that the consumed substrings reconstruct the input.

pub mod chars;
pub mod decimal;
pub mod laws;
pub mod lexer;
pub mod scan;
pub mod token;
