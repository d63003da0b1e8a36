//! A lexical scanner for a small C-like scripting language.
//!
//! The scanner turns a source string into a stream of classified tokens:
//! keywords, identifiers, integer literals, operators and punctuation.
//! Tokens are pulled one at a time with [`lexer::Lexer::next_token`]; once
//! the input is exhausted the scanner keeps returning an end-of-input token.

pub mod lexer;
pub mod token;
