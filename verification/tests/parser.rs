//! The parser on source snippets: each parse is rendered back to text and
//! compared against the expected fully parenthesized form.

use siren_language::lexer::{lexer, Token};
use siren_language::parser::{
    block_stmt, build_pratt_parser, expr, fn_expr, if_expr, literal, return_stmt, statement,
};
use siren_language::text::block_text;

fn toks(input: &str) -> Vec<Token> {
    lexer(input).unwrap()
}

fn expr_text(input: &str) -> String {
    let t = toks(input);
    let pratt = build_pratt_parser();
    let (e, p) = expr(&t, 0, &pratt).unwrap();
    assert_eq!(p, t.len());
    e.to_text()
}

fn statement_text(input: &str) -> String {
    let t = toks(input);
    let pratt = build_pratt_parser();
    let (s, p) = statement(&t, 0, &pratt).unwrap();
    assert_eq!(p, t.len());
    s.to_text()
}

#[test]
fn test_parse_expr() {
    assert_eq!(
        expr_text("1 + 2 * abc + 4 * 5 - 6 / 7"),
        "(((1 + (2 * abc)) + (4 * 5)) - (6 / 7))"
    );
    assert_eq!(expr_text(" 72 / 2 / 3 "), "((72 / 2) / 3)");
}

#[test]
fn test_prefix_expr() {
    assert_eq!(expr_text("1 + -2 * abc"), "(1 + ((-2) * abc))");
    assert_eq!(expr_text("!false"), "(!false)");
}

#[test]
fn parse_func_function_test() {
    let t = toks("fn(x, y) { x + y;  x - y}");
    let pratt = build_pratt_parser();
    let (e, p) = fn_expr(&t, 0, &pratt).unwrap();
    assert_eq!(p, t.len());
    assert_eq!(e.to_text(), "fn(x, y) { expr (x + y); return (x - y); }");
}

#[test]
fn test_parent_expr() {
    assert_eq!(expr_text("(1 + 2) * 3"), "((1 + 2) * 3)");
}

#[test]
fn parse_func_statement_test() {
    assert_eq!(statement_text("let a = 123"), "let a = 123");
    assert_eq!(statement_text("123 + 254   "), "expr (123 + 254)");
    assert_eq!(statement_text("let abc =123 + 254  "), "let abc = (123 + 254)");
    assert_eq!(statement_text("abc =123 + 254  "), "set abc = (123 + 254)");
    assert_eq!(
        statement_text("let abc = fn (a, b) {  a + b;}"),
        "let abc = fn(a, b) { expr (a + b); }"
    );
}

#[test]
fn return_test() {
    let t = toks("return 123");
    let pratt = build_pratt_parser();
    let (s, p) = return_stmt(&t, 0, &pratt).unwrap();
    assert_eq!(p, t.len());
    assert_eq!(s.to_text(), "return 123");
}

#[test]
fn call_test() {
    assert_eq!(statement_text("let c   = add(a  ,  b )"), "let c = add(a, b)");
}

#[test]
fn boolean_test() {
    let t = toks("true");
    let (e, _) = literal(&t, 0).unwrap();
    assert_eq!(e.to_text(), "true");
    let t = toks("false");
    let (e, _) = literal(&t, 0).unwrap();
    assert_eq!(e.to_text(), "false");
}

#[test]
fn if_test() {
    let pratt = build_pratt_parser();
    let cases = [
        ("if true { 123 }", "if true { return 123; }"),
        ("if true { return 123; }", "if true { return 123; }"),
        ("if true { 123 } else { 234}", "if true { return 123; } else { return 234; }"),
        (
            "if true { return 123; } else { return 234; }",
            "if true { return 123; } else { return 234; }",
        ),
    ];
    for (input, expected) in cases {
        let t = toks(input);
        let (e, p) = if_expr(&t, 0, &pratt).unwrap();
        assert_eq!(p, t.len());
        assert_eq!(e.to_text(), expected);
    }
}

#[test]
fn blockstmt_test() {
    let pratt = build_pratt_parser();
    let cases = [
        ("{ 123 }", "[return 123]"),
        ("{let a = 123;}", "[let a = 123]"),
        (
            "{let a = 123; 123 - 12 / 4  ; a= b  ;}",
            "[let a = 123, expr (123 - (12 / 4)), set a = b]",
        ),
    ];
    for (input, expected) in cases {
        let t = toks(input);
        let (b, p) = block_stmt(&t, 0, &pratt).unwrap();
        assert_eq!(p, t.len());
        assert_eq!(block_text(&b), expected);
    }
}
