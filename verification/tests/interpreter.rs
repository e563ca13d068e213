//! The evaluator on whole functions and programs.

use siren_language::ast::{Expr, Statement};
use siren_language::eval::{eval_func, CallOutcome};
use siren_language::parser::SirenParser;
use siren_language::value::Value;

/// Parses `let name = fn (...) {...}` and hands back the pieces.
fn build_siren_function(program: &str) -> (String, Vec<String>, Vec<Statement>) {
    let stmt = SirenParser::parse_line(program).unwrap();
    match stmt {
        Statement::Let { name, value: Expr::Function { params, body } } => (name, params, body),
        _ => unreachable!(),
    }
}

fn call_for_int(
    name: &str,
    params: &Vec<String>,
    body: &Vec<Statement>,
    args: Vec<Value>,
) -> i64 {
    match eval_func(params, args, body, Some(name), 100000) {
        CallOutcome::Value(Value::Int(n)) => n,
        _ => unreachable!(),
    }
}

#[test]
fn test_abs() {
    let (name, params, body) = build_siren_function(
        "let abs = fn (x) {
                if x > 0 {x} else { -x}
            }",
    );
    assert_eq!(call_for_int(&name, &params, &body, vec![Value::Int(0)]), 0);
    assert_eq!(call_for_int(&name, &params, &body, vec![Value::Int(-5)]), 5);
    assert_eq!(call_for_int(&name, &params, &body, vec![Value::Int(15)]), 15);
}

#[test]
fn test_fib() {
    let (name, params, body) = build_siren_function(
        "let fib = fn (n) {
                let ans = 0;
                if n <= 1 {
                    return 1;
                } else {
                    ans = fib(n - 1) + fib(n - 2);
                };
                ans
            }",
    );
    let expected = [1, 1, 2, 3, 5, 8, 13, 21, 34, 55];
    for (n, want) in expected.iter().enumerate() {
        assert_eq!(
            call_for_int(&name, &params, &body, vec![Value::Int(n as i64)]),
            *want
        );
    }
}

#[test]
fn test_branch() {
    let (name, params, body) = build_siren_function(
        "let max = fn (a, b) {
                if a > b {a} else {b}
            }",
    );
    assert_eq!(
        call_for_int(&name, &params, &body, vec![Value::Int(0), Value::Int(1)]),
        1
    );
    assert_eq!(
        call_for_int(&name, &params, &body, vec![Value::Int(76), Value::Int(3)]),
        76
    );
    assert_eq!(
        call_for_int(&name, &params, &body, vec![Value::Int(-2), Value::Int(-5)]),
        -2
    );
}
