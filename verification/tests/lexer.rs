//! The tokenizer on keywords, identifiers and annotations.

use siren_language::lexer::{lexer, Token};

#[test]
fn test_keywords() {
    let toks = lexer(
        "let fn return if else = + - * / && || ! == != < > <= >= . , : ; ( ) { } [ ]",
    )
    .unwrap();
    let expected = vec![
        Token::Let,
        Token::Fn,
        Token::Return,
        Token::If,
        Token::Else,
        Token::Assign,
        Token::Add,
        Token::Sub,
        Token::Mul,
        Token::Div,
        Token::And,
        Token::Or,
        Token::Not,
        Token::Equal,
        Token::NotEqual,
        Token::Less,
        Token::Greater,
        Token::LessEqual,
        Token::GreaterEqual,
        Token::Dot,
        Token::Comma,
        Token::Colon,
        Token::Semicolon,
        Token::LParen,
        Token::RParen,
        Token::LBrace,
        Token::RBrace,
        Token::LBracket,
        Token::RBracket,
    ];
    assert_eq!(toks, expected);
}

#[test]
fn test_identifier() {
    let toks = lexer("hello world _abc").unwrap();
    assert_eq!(toks[0], Token::Ident("hello".to_string()));
    assert_eq!(toks[1], Token::Ident("world".to_string()));
    assert_eq!(toks[2], Token::Ident("_abc".to_string()));
}

#[test]
fn test_type_parsing() {
    let toks = lexer("let abc : int = 123;").unwrap();
    assert_eq!(toks[0], Token::Let);
    assert_eq!(toks[1], Token::Ident("abc".to_string()));
    assert_eq!(toks[2], Token::Colon);
    assert_eq!(toks[3], Token::TypeParam("int".to_string()));
    assert_eq!(toks[4], Token::Assign);
    assert_eq!(toks[5], Token::Int(123));
    assert_eq!(toks[6], Token::Semicolon);

    let toks = lexer("let abc : bool = true;").unwrap();
    assert_eq!(toks[0], Token::Let);
    assert_eq!(toks[1], Token::Ident("abc".to_string()));
    assert_eq!(toks[2], Token::Colon);
    assert_eq!(toks[3], Token::TypeParam("bool".to_string()));
    assert_eq!(toks[4], Token::Assign);
    assert_eq!(toks[5], Token::Bool(true));
    assert_eq!(toks[6], Token::Semicolon);
}
