//! The language's observable behaviour, end to end through `run_file`:
//! truncating division, binding and assignment rules, arity checking, early
//! returns, implicit block values, and the ban on comparing functions.

use siren_language::value::{calc_eql, RuntimeError, Value};
use siren_language::{run_file, SirenError};

fn run_int(src: &str) -> i64 {
    match run_file(src, 100000) {
        Ok(Value::Int(n)) => n,
        other => panic!("expected an integer, got {:?}", other),
    }
}

fn run_err(src: &str) -> RuntimeError {
    match run_file(src, 100000) {
        Err(SirenError::Runtime(e)) => e,
        other => panic!("expected a runtime error, got {:?}", other),
    }
}

#[test]
fn division_truncates_toward_zero() {
    assert_eq!(run_int("72 / 7;"), 10);
    assert_eq!(run_int("0 - 7;"), -7);
    assert_eq!(run_int("(0 - 7) / 2;"), -3);
    assert_eq!(run_int("7 / (0 - 2);"), -3);
    assert_eq!(run_int("(0 - 7) / (0 - 2);"), 3);
}

#[test]
fn division_by_zero_fails() {
    assert!(matches!(run_err("1 / 0;"), RuntimeError::DivisionByZero));
    assert!(matches!(run_err("let a = 5; a / (a - a);"), RuntimeError::DivisionByZero));
}

#[test]
fn duplicate_binding_fails() {
    assert!(matches!(run_err("let a = 1; let a = 2;"), RuntimeError::DuplicateBinding(_)));
}

#[test]
fn shadow_then_unshadow() {
    // a nested block may rebind the name; the outer binding is visible again
    // after the block exits
    assert_eq!(run_int("let a = 1; if true { let a = 99; a; }; a;"), 1);
}

#[test]
fn set_on_undeclared_fails() {
    assert!(matches!(run_err("a = 1;"), RuntimeError::UnknownVariable(_)));
}

#[test]
fn set_mutates_enclosing_binding() {
    assert_eq!(run_int("let a = 1; if true { a = 5; }; a;"), 5);
}

#[test]
fn arity_mismatch_regardless_of_types() {
    let e = run_err("let f = fn (x) { x }; f(1, 2);");
    assert!(matches!(e, RuntimeError::ArityMismatch(1, 2)));
    let e = run_err("let f = fn (x, y) { x }; f(true);");
    assert!(matches!(e, RuntimeError::ArityMismatch(2, 1)));
}

#[test]
fn return_short_circuits_function_body() {
    // the return inside the nested if ends the whole call; the trailing 99
    // is never its value
    assert_eq!(run_int("let f = fn (n) { if n > 0 { return 7; } else { return 8; }; 99 }; f(1);"), 7);
    assert_eq!(run_int("let f = fn (n) { if n > 0 { return 7; } else { return 8; }; 99 }; f(0);"), 8);
}

#[test]
fn block_without_value_is_unit() {
    let r = run_file("let u = fn () { let x = 1; }; u();", 1000);
    assert!(matches!(r, Ok(Value::Unit)));
}

#[test]
fn trailing_expression_is_block_value() {
    assert_eq!(run_int("let g = fn () { 40 + 2 }; g();"), 42);
}

#[test]
fn functions_do_not_compare() {
    let e = run_err("let f = fn (x) { x }; let g = fn (y) { y }; f == g;");
    assert!(matches!(e, RuntimeError::UncomparableFunction));
    let e = run_err("let f = fn (x) { x }; f == f;");
    assert!(matches!(e, RuntimeError::UncomparableFunction));
    let fv = Value::Fn { params: vec![], body: vec![] };
    let gv = Value::Fn { params: vec!["x".to_string()], body: vec![] };
    assert!(matches!(calc_eql(fv, gv), Err(RuntimeError::UncomparableFunction)));
}

#[test]
fn type_mismatch_and_not_callable() {
    assert!(matches!(run_err("1 + true;"), RuntimeError::TypeMismatch(_, _)));
    assert!(matches!(run_err("if 3 { 1 };"), RuntimeError::TypeMismatch(_, _)));
    assert!(matches!(run_err("let a = 4; a(1);"), RuntimeError::NotCallable));
}

#[test]
fn unit_equality() {
    // unit equals unit under == and only there
    let r = run_file("let u = fn () { let x = 1; }; u() == u();", 1000);
    assert!(matches!(r, Ok(Value::Bool(true))));
    assert!(matches!(run_err("let u = fn () { let x = 1; }; u() < u();"),
        RuntimeError::TypeMismatch(_, _)));
}

#[test]
fn wrapped_negation_and_subtraction() {
    assert_eq!(run_int("0 - 9223372036854775807;"), -9223372036854775807);
    assert_eq!(run_int("-42;"), -42);
}
