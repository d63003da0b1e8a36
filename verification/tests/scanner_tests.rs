use script_lexer::lexer::Lexer;
use script_lexer::token::{Token, TokenKind};

/// Pulls tokens until `EndOfInput` (inclusive) and returns them as
/// (kind, literal) pairs.
fn tokens_of(src: &str) -> Vec<(TokenKind, String)> {
    let mut l = Lexer::new(src.to_string());
    let mut out = Vec::new();
    loop {
        let t = l.next_token();
        let done = t.kind == TokenKind::EndOfInput;
        out.push((t.kind, t.literal));
        if done {
            break;
        }
    }
    out
}

fn pair(kind: TokenKind, lit: &str) -> (TokenKind, String) {
    (kind, lit.to_string())
}

#[test]
fn whitespace_only_input_yields_end_of_input() {
    let out = tokens_of(" \t\n\r  \t");
    assert_eq!(out, vec![pair(TokenKind::EndOfInput, "")]);
}

#[test]
fn empty_input_yields_end_of_input_immediately() {
    let mut l = Lexer::new(String::new());
    let t = l.next_token();
    assert_eq!(t.kind, TokenKind::EndOfInput);
    assert_eq!(t.literal, "");
}

#[test]
fn double_equal_is_one_equal_token() {
    let out = tokens_of("==");
    assert_eq!(
        out,
        vec![pair(TokenKind::Equal, "=="), pair(TokenKind::EndOfInput, "")]
    );
}

#[test]
fn bang_equal_is_one_not_equal_token() {
    let out = tokens_of("!=");
    assert_eq!(
        out,
        vec![
            pair(TokenKind::NotEqual, "!="),
            pair(TokenKind::EndOfInput, "")
        ]
    );
}

#[test]
fn end_of_input_is_absorbing() {
    let mut l = Lexer::new("x".to_string());
    let first = l.next_token();
    assert_eq!(first.kind, TokenKind::Identifier);
    for _ in 0..10 {
        let t = l.next_token();
        assert_eq!(t.kind, TokenKind::EndOfInput);
        assert_eq!(t.literal, "");
    }
}

#[test]
fn let_statement_token_sequence() {
    let out = tokens_of("let five = 5");
    assert_eq!(
        out,
        vec![
            pair(TokenKind::Let, "let"),
            pair(TokenKind::Identifier, "five"),
            pair(TokenKind::Assign, "="),
            pair(TokenKind::Integer, "5"),
            pair(TokenKind::EndOfInput, ""),
        ]
    );
}

#[test]
fn function_definition_token_sequence() {
    let out = tokens_of("fn(x,y){return x+y;}");
    assert_eq!(
        out,
        vec![
            pair(TokenKind::Function, "fn"),
            pair(TokenKind::LeftParen, "("),
            pair(TokenKind::Identifier, "x"),
            pair(TokenKind::Comma, ","),
            pair(TokenKind::Identifier, "y"),
            pair(TokenKind::RightParen, ")"),
            pair(TokenKind::LeftBrace, "{"),
            pair(TokenKind::Return, "return"),
            pair(TokenKind::Identifier, "x"),
            pair(TokenKind::Plus, "+"),
            pair(TokenKind::Identifier, "y"),
            pair(TokenKind::Semicolon, ";"),
            pair(TokenKind::RightBrace, "}"),
            pair(TokenKind::EndOfInput, ""),
        ]
    );
}

#[test]
fn unrecognized_character_is_illegal_not_an_error() {
    let out = tokens_of("@");
    assert_eq!(
        out,
        vec![pair(TokenKind::Illegal, "@"), pair(TokenKind::EndOfInput, "")]
    );
}

#[test]
fn identifiers_are_maximal_runs() {
    let out = tokens_of("fntrue");
    assert_eq!(
        out,
        vec![
            pair(TokenKind::Identifier, "fntrue"),
            pair(TokenKind::EndOfInput, "")
        ]
    );
}

#[test]
fn every_keyword_is_recognized() {
    let out = tokens_of("fn let true false if else return");
    assert_eq!(
        out,
        vec![
            pair(TokenKind::Function, "fn"),
            pair(TokenKind::Let, "let"),
            pair(TokenKind::True, "true"),
            pair(TokenKind::False, "false"),
            pair(TokenKind::If, "if"),
            pair(TokenKind::Else, "else"),
            pair(TokenKind::Return, "return"),
            pair(TokenKind::EndOfInput, ""),
        ]
    );
}

#[test]
fn single_character_tokens_each_have_their_kind() {
    let out = tokens_of("+-*/<>(){},;");
    assert_eq!(
        out,
        vec![
            pair(TokenKind::Plus, "+"),
            pair(TokenKind::Minus, "-"),
            pair(TokenKind::Asterisk, "*"),
            pair(TokenKind::Slash, "/"),
            pair(TokenKind::LessThan, "<"),
            pair(TokenKind::GreaterThan, ">"),
            pair(TokenKind::LeftParen, "("),
            pair(TokenKind::RightParen, ")"),
            pair(TokenKind::LeftBrace, "{"),
            pair(TokenKind::RightBrace, "}"),
            pair(TokenKind::Comma, ","),
            pair(TokenKind::Semicolon, ";"),
            pair(TokenKind::EndOfInput, ""),
        ]
    );
}

#[test]
fn lone_assign_and_bang_keep_their_single_kinds() {
    let out = tokens_of("= ! == !=");
    assert_eq!(
        out,
        vec![
            pair(TokenKind::Assign, "="),
            pair(TokenKind::Bang, "!"),
            pair(TokenKind::Equal, "=="),
            pair(TokenKind::NotEqual, "!="),
            pair(TokenKind::EndOfInput, ""),
        ]
    );
}

#[test]
fn lookup_ident_maps_keywords_and_defaults_to_identifier() {
    assert_eq!(Token::lookup_ident("fn"), TokenKind::Function);
    assert_eq!(Token::lookup_ident("let"), TokenKind::Let);
    assert_eq!(Token::lookup_ident("true"), TokenKind::True);
    assert_eq!(Token::lookup_ident("false"), TokenKind::False);
    assert_eq!(Token::lookup_ident("if"), TokenKind::If);
    assert_eq!(Token::lookup_ident("else"), TokenKind::Else);
    assert_eq!(Token::lookup_ident("return"), TokenKind::Return);
    assert_eq!(Token::lookup_ident("foo"), TokenKind::Identifier);
    assert_eq!(Token::lookup_ident("Fn"), TokenKind::Identifier);
    assert_eq!(Token::lookup_ident(""), TokenKind::Identifier);
}

#[test]
fn token_new_accepts_any_pairing() {
    let t = Token::new(TokenKind::Integer, "5".to_string());
    assert_eq!(t.kind, TokenKind::Integer);
    assert_eq!(t.literal, "5");
}

#[test]
fn underscore_starts_and_continues_identifiers() {
    let out = tokens_of("_foo_bar");
    assert_eq!(
        out,
        vec![
            pair(TokenKind::Identifier, "_foo_bar"),
            pair(TokenKind::EndOfInput, "")
        ]
    );
}

#[test]
fn digits_do_not_continue_an_identifier() {
    let out = tokens_of("a1");
    assert_eq!(
        out,
        vec![
            pair(TokenKind::Identifier, "a"),
            pair(TokenKind::Integer, "1"),
            pair(TokenKind::EndOfInput, ""),
        ]
    );
}

#[test]
fn integer_literals_are_maximal_runs() {
    let out = tokens_of("12345 6");
    assert_eq!(
        out,
        vec![
            pair(TokenKind::Integer, "12345"),
            pair(TokenKind::Integer, "6"),
            pair(TokenKind::EndOfInput, ""),
        ]
    );
}

#[test]
fn non_ascii_character_is_illegal() {
    let out = tokens_of("é");
    assert_eq!(
        out,
        vec![pair(TokenKind::Illegal, "é"), pair(TokenKind::EndOfInput, "")]
    );
}

#[test]
fn embedded_null_acts_as_sentinel() {
    let mut l = Lexer::new("a\0b".to_string());
    let t = l.next_token();
    assert_eq!(t.kind, TokenKind::Identifier);
    assert_eq!(t.literal, "a");
    for _ in 0..5 {
        let t = l.next_token();
        assert_eq!(t.kind, TokenKind::EndOfInput);
        assert_eq!(t.literal, "");
    }
}

#[test]
fn whitespace_separates_tokens() {
    let out = tokens_of("  let\tx\n=\r5  ");
    assert_eq!(
        out,
        vec![
            pair(TokenKind::Let, "let"),
            pair(TokenKind::Identifier, "x"),
            pair(TokenKind::Assign, "="),
            pair(TokenKind::Integer, "5"),
            pair(TokenKind::EndOfInput, ""),
        ]
    );
}
