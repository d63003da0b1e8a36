//! The token model: the closed set of token categories, the token value
//! itself, and the keyword table that classifies a scanned identifier.

use vstd::prelude::*;

verus! {

/// The closed set of token categories.
///
/// Unrecognized characters are classified as `Illegal` rather than being
/// treated as an error, and input exhaustion is reported as `EndOfInput`.
/// `Comma` and `Semicolon` are deliberately distinct kinds, so the kind alone
/// tells the two punctuation marks apart.
#[derive(Clone, Copy, Debug, PartialEq, Eq, Structural)]
pub enum TokenKind {
    Illegal,
    EndOfInput,
    Identifier,
    Integer,
    Assign,
    Plus,
    Minus,
    Bang,
    Asterisk,
    Slash,
    Comma,
    Semicolon,
    LessThan,
    GreaterThan,
    LeftParen,
    RightParen,
    LeftBrace,
    RightBrace,
    Function,
    Let,
    True,
    False,
    If,
    Else,
    Return,
    Equal,
    NotEqual,
}

/// The kind that a complete identifier spelling denotes: one of the seven
/// reserved words maps to its keyword kind, every other spelling is an
/// ordinary `Identifier`.
pub open spec fn keyword_kind(s: Seq<char>) -> TokenKind {
    if s == "fn"@ {
        TokenKind::Function
    } else if s == "let"@ {
        TokenKind::Let
    } else if s == "true"@ {
        TokenKind::True
    } else if s == "false"@ {
        TokenKind::False
    } else if s == "if"@ {
        TokenKind::If
    } else if s == "else"@ {
        TokenKind::Else
    } else if s == "return"@ {
        TokenKind::Return
    } else {
        TokenKind::Identifier
    }
}

/// An immutable token: a category paired with the exact source substring it
/// was scanned from.
#[derive(Debug, PartialEq, Eq)]
pub struct Token {
    pub kind: TokenKind,
    pub literal: String,
}

impl Token {
    /// Constructs a token from a kind and its literal text, with no
    /// validation: any pairing is accepted, the caller keeps them consistent.
    pub fn new(kind: TokenKind, literal: String) -> (t: Token)
        ensures
            t.kind == kind,
            t.literal == literal,
    {
        Token { kind, literal }
    }

    /// Classifies a complete identifier spelling: a reserved word yields its
    /// keyword kind, anything else yields `Identifier`. Never fails; an
    /// unreserved spelling is the common case, not an error.
    pub fn lookup_ident(ident: &str) -> (kind: TokenKind)
        ensures
            kind == keyword_kind(ident@),
    {
        let s: String = ident.to_owned();
        if s == "fn".to_owned() {
            TokenKind::Function
        } else if s == "let".to_owned() {
            TokenKind::Let
        } else if s == "true".to_owned() {
            TokenKind::True
        } else if s == "false".to_owned() {
            TokenKind::False
        } else if s == "if".to_owned() {
            TokenKind::If
        } else if s == "else".to_owned() {
            TokenKind::Else
        } else if s == "return".to_owned() {
            TokenKind::Return
        } else {
            TokenKind::Identifier
        }
    }
}

} // verus!
