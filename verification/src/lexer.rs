//! The tokenizer: source text to the token stream the parser consumes.
//! Only ASCII source is accepted; an integer literal must fit in a signed
//! 64-bit value.

use vstd::prelude::*;
use vstd::string::StrSliceExecFns;

use crate::parser::ParserError;

verus! {

/// One lexical token.
#[derive(Debug, PartialEq)]
pub enum Token {
    // identifier and literals
    Ident(String),
    Int(i64),
    Bool(bool),
    // type annotation words
    TypeParam(String),
    // reserved keywords
    Let,
    Fn,
    Return,
    If,
    Else,
    // assignment
    Assign,
    // operators
    Add,
    Sub,
    Mul,
    Div,
    And,
    Or,
    Not,
    Equal,
    NotEqual,
    Less,
    LessEqual,
    Greater,
    GreaterEqual,
    // punctuation
    Dot,
    Comma,
    Colon,
    Semicolon,
    LParen,
    RParen,
    LBrace,
    RBrace,
    LBracket,
    RBracket,
}

/// Whether the byte is an ASCII decimal digit.
fn is_digit(c: u8) -> (r: bool)
    ensures
        r == (48 <= c <= 57),
{
    48 <= c && c <= 57
}

/// Whether the byte may start or continue an identifier.
fn is_word_byte(c: u8) -> (r: bool)
    ensures
        r == (65 <= c <= 90 || 97 <= c <= 122 || c == 95 || 48 <= c <= 57),
{
    (65 <= c && c <= 90) || (97 <= c && c <= 122) || c == 95 || (48 <= c && c <= 57)
}

/// Whether two name slices hold the same characters.
fn word_eq(a: &str, b: &str) -> (r: bool)
    ensures
        r == (a@ == b@),
{
    let sa: String = a.to_string();
    let sb: String = b.to_string();
    sa == sb
}

/// The token for one identifier-shaped word: a reserved keyword, a boolean
/// or type-name literal, or a plain identifier.
fn word_token(w: &str) -> Token {
    if word_eq(w, "let") {
        Token::Let
    } else if word_eq(w, "fn") {
        Token::Fn
    } else if word_eq(w, "return") {
        Token::Return
    } else if word_eq(w, "if") {
        Token::If
    } else if word_eq(w, "else") {
        Token::Else
    } else if word_eq(w, "true") {
        Token::Bool(true)
    } else if word_eq(w, "false") {
        Token::Bool(false)
    } else if word_eq(w, "int") || word_eq(w, "bool") {
        Token::TypeParam(w.to_string())
    } else {
        Token::Ident(w.to_string())
    }
}

/// Splits source text into tokens. Fails on a byte that no token may hold,
/// on non-ASCII text, and on an integer literal beyond the 64-bit range.
pub fn lexer(input: &str) -> (r: Result<Vec<Token>, ParserError>) {
    if !input.is_ascii() {
        return Err(ParserError::Default("source is not ascii".to_string()));
    }
    let len = input.unicode_len();
    let mut toks: Vec<Token> = Vec::new();
    let mut i: usize = 0;
    while i < len
        invariant
            len == input@.len(),
            input.is_ascii(),
            i <= len,
        decreases len - i,
    {
        let c = input.get_ascii(i);
        if c == 32 || c == 9 || c == 10 || c == 13 {
            i = i + 1;
        } else if is_digit(c) {
            let mut value: i64 = (c - 48) as i64;
            let ghost start = i as int;
            i = i + 1;
            while i < len && is_digit(input.get_ascii(i))
                invariant
                    len == input@.len(),
                    input.is_ascii(),
                    start < i <= len,
                decreases len - i,
            {
                let d = (input.get_ascii(i) - 48) as i64;
                value = match value.checked_mul(10) {
                    Some(v) => v,
                    None => {
                        return Err(ParserError::Default("integer literal is too large".to_string()));
                    },
                };
                value = match value.checked_add(d) {
                    Some(v) => v,
                    None => {
                        return Err(ParserError::Default("integer literal is too large".to_string()));
                    },
                };
                i = i + 1;
            }
            toks.push(Token::Int(value));
        } else if is_word_byte(c) {
            let start = i;
            i = i + 1;
            while i < len && is_word_byte(input.get_ascii(i))
                invariant
                    len == input@.len(),
                    input.is_ascii(),
                    start < i <= len,
                decreases len - i,
            {
                i = i + 1;
            }
            let w = input.substring_ascii(start, i);
            toks.push(word_token(w));
        } else if c == 61 {
            // '='
            if i + 1 < len && input.get_ascii(i + 1) == 61 {
                toks.push(Token::Equal);
                i = i + 2;
            } else {
                toks.push(Token::Assign);
                i = i + 1;
            }
        } else if c == 33 {
            // '!'
            if i + 1 < len && input.get_ascii(i + 1) == 61 {
                toks.push(Token::NotEqual);
                i = i + 2;
            } else {
                toks.push(Token::Not);
                i = i + 1;
            }
        } else if c == 60 {
            // '<'
            if i + 1 < len && input.get_ascii(i + 1) == 61 {
                toks.push(Token::LessEqual);
                i = i + 2;
            } else {
                toks.push(Token::Less);
                i = i + 1;
            }
        } else if c == 62 {
            // '>'
            if i + 1 < len && input.get_ascii(i + 1) == 61 {
                toks.push(Token::GreaterEqual);
                i = i + 2;
            } else {
                toks.push(Token::Greater);
                i = i + 1;
            }
        } else if c == 38 {
            // '&', only valid doubled
            if i + 1 < len && input.get_ascii(i + 1) == 38 {
                toks.push(Token::And);
                i = i + 2;
            } else {
                return Err(ParserError::Default("a lone '&' is not a token".to_string()));
            }
        } else if c == 124 {
            // '|', only valid doubled
            if i + 1 < len && input.get_ascii(i + 1) == 124 {
                toks.push(Token::Or);
                i = i + 2;
            } else {
                return Err(ParserError::Default("a lone '|' is not a token".to_string()));
            }
        } else {
            let t = match c {
                43 => Token::Add,
                45 => Token::Sub,
                42 => Token::Mul,
                47 => Token::Div,
                46 => Token::Dot,
                44 => Token::Comma,
                58 => Token::Colon,
                59 => Token::Semicolon,
                40 => Token::LParen,
                41 => Token::RParen,
                123 => Token::LBrace,
                125 => Token::RBrace,
                91 => Token::LBracket,
                93 => Token::RBracket,
                _ => {
                    return Err(ParserError::Default("unexpected character".to_string()));
                },
            };
            toks.push(t);
            i = i + 1;
        }
    }
    Ok(toks)
}

} // verus!
