//! Runtime values, the runtime error taxonomy, and the arithmetic and
//! comparison operations over values.
//!
//! Integers have signed 64-bit (two's-complement) semantics: `+ - *` wrap
//! around, `/` truncates toward zero, and division by zero is the runtime
//! error `DivisionByZero`, never a panic.

use vstd::prelude::*;

use crate::ast::{stmts_dv, strings_dv, Statement, StmtV};

verus! {

/// A runtime value: unit, a 64-bit integer, a boolean, or a function value
/// (its parameter names and body, copied verbatim; no captured scope).
#[derive(Debug)]
pub enum Value {
    Unit,
    Int(i64),
    Bool(bool),
    Fn { params: Vec<String>, body: Vec<Statement> },
}

/// Ghost mirror of `Value`.
pub enum ValueV {
    Unit,
    Int(i64),
    Bool(bool),
    Fn { params: Seq<Seq<char>>, body: Seq<StmtV> },
}

/// The variant of a value, as reported in type-mismatch errors.
#[derive(Clone, Copy, Debug, PartialEq, Eq, Structural)]
pub enum ValueKind {
    Unit,
    Int,
    Bool,
    Fn,
}

/// A runtime error. Every evaluation failure is one of these; the first error
/// anywhere aborts the enclosing statement, block and call.
#[derive(Debug)]
pub enum RuntimeError {
    /// A `let` or parameter binding collides with a name already bound in the
    /// same frame.
    DuplicateBinding(String),
    /// A lookup or assignment target is not bound in any visible frame.
    UnknownVariable(String),
    /// An operand's variant does not match what the operation requires:
    /// what was required, then what was found.
    TypeMismatch(ValueKind, ValueKind),
    /// A call target is not a function value.
    NotCallable,
    /// An argument count differs from the parameter count: expected, found.
    ArityMismatch(usize, usize),
    /// Division by zero.
    DivisionByZero,
    /// Equality or ordering attempted between two function values.
    UncomparableFunction,
}

/// Ghost mirror of `RuntimeError`.
pub enum ErrV {
    DuplicateBinding(Seq<char>),
    UnknownVariable(Seq<char>),
    TypeMismatch(ValueKind, ValueKind),
    NotCallable,
    ArityMismatch(nat, nat),
    DivisionByZero,
    UncomparableFunction,
}

/// Ghost view of a value.
pub open spec fn value_dv(v: Value) -> ValueV {
    match v {
        Value::Unit => ValueV::Unit,
        Value::Int(n) => ValueV::Int(n),
        Value::Bool(b) => ValueV::Bool(b),
        Value::Fn { params, body } => ValueV::Fn {
            params: strings_dv(params@),
            body: stmts_dv(body@),
        },
    }
}

/// Ghost view of a runtime error.
pub open spec fn err_dv(e: RuntimeError) -> ErrV {
    match e {
        RuntimeError::DuplicateBinding(n) => ErrV::DuplicateBinding(n@),
        RuntimeError::UnknownVariable(n) => ErrV::UnknownVariable(n@),
        RuntimeError::TypeMismatch(w, f) => ErrV::TypeMismatch(w, f),
        RuntimeError::NotCallable => ErrV::NotCallable,
        RuntimeError::ArityMismatch(w, f) => ErrV::ArityMismatch(w as nat, f as nat),
        RuntimeError::DivisionByZero => ErrV::DivisionByZero,
        RuntimeError::UncomparableFunction => ErrV::UncomparableFunction,
    }
}

/// Ghost view of a value-or-error result.
pub open spec fn res_dv(r: Result<Value, RuntimeError>) -> Result<ValueV, ErrV> {
    match r {
        Result::Ok(v) => Result::Ok(value_dv(v)),
        Result::Err(e) => Result::Err(err_dv(e)),
    }
}

/// The variant of a ghost value.
pub open spec fn kind_v(v: ValueV) -> ValueKind {
    match v {
        ValueV::Unit => ValueKind::Unit,
        ValueV::Int(_) => ValueKind::Int,
        ValueV::Bool(_) => ValueKind::Bool,
        ValueV::Fn { .. } => ValueKind::Fn,
    }
}

impl Value {
    /// Copies this value; the copy has the same view.
    pub fn deep_copy(&self) -> (r: Value)
        ensures
            value_dv(r) == value_dv(*self),
    {
        match self {
            Value::Unit => Value::Unit,
            Value::Int(n) => Value::Int(*n),
            Value::Bool(b) => Value::Bool(*b),
            Value::Fn { params, body } => Value::Fn {
                params: crate::ast::copy_strings(params),
                body: crate::ast::copy_stmts(body),
            },
        }
    }

    /// The variant of this value.
    pub fn kind(&self) -> (k: ValueKind)
        ensures
            k == kind_v(value_dv(*self)),
    {
        match self {
            Value::Unit => ValueKind::Unit,
            Value::Int(_) => ValueKind::Int,
            Value::Bool(_) => ValueKind::Bool,
            Value::Fn { .. } => ValueKind::Fn,
        }
    }
}

/// Truncating division of mathematical integers: rounds toward zero.
/// Meaningful for `d != 0`.
pub open spec fn trunc_div(x: int, d: int) -> int {
    if x == 0 {
        0
    } else if x > 0 && d > 0 {
        x / d
    } else if x < 0 && d < 0 {
        (x * -1) / (d * -1)
    } else if x < 0 {
        ((x * -1) / d) * -1
    } else {
        (x / (d * -1)) * -1
    }
}

/// Addition with signed 64-bit wrap-around.
pub open spec fn add_i64(a: i64, b: i64) -> i64 {
    vstd::wrapping::i64_specs::wrapping_add(a, b)
}

/// Subtraction with signed 64-bit wrap-around.
pub open spec fn sub_i64(a: i64, b: i64) -> i64 {
    vstd::wrapping::i64_specs::wrapping_sub(a, b)
}

/// Multiplication with signed 64-bit wrap-around.
pub open spec fn mul_i64(a: i64, b: i64) -> i64 {
    vstd::wrapping::i64_specs::wrapping_mul(a, b)
}

/// Truncating division on 64-bit integers; the one overflowing case,
/// `i64::MIN / -1`, wraps back to `i64::MIN`. Meaningful for `b != 0`.
pub open spec fn div_i64(a: i64, b: i64) -> i64 {
    if a == i64::MIN && b == -1 {
        i64::MIN
    } else {
        trunc_div(a as int, b as int) as i64
    }
}

/// What arithmetic over values returns: both operands must be integers, `/`
/// fails on a zero divisor, and otherwise the wrapped 64-bit result comes
/// back.
pub open spec fn arith_v(op: crate::ast::Infix, a: ValueV, b: ValueV) -> Result<ValueV, ErrV>
    recommends
        matches!(op, crate::ast::Infix::Add | crate::ast::Infix::Sub | crate::ast::Infix::Mul
            | crate::ast::Infix::Div),
{
    match (a, b) {
        (ValueV::Int(x), ValueV::Int(y)) => match op {
            crate::ast::Infix::Add => Result::Ok(ValueV::Int(add_i64(x, y))),
            crate::ast::Infix::Sub => Result::Ok(ValueV::Int(sub_i64(x, y))),
            crate::ast::Infix::Mul => Result::Ok(ValueV::Int(mul_i64(x, y))),
            _ => if y == 0 {
                Result::Err(ErrV::DivisionByZero)
            } else {
                Result::Ok(ValueV::Int(div_i64(x, y)))
            },
        },
        (ValueV::Int(_), other) => Result::Err(
            ErrV::TypeMismatch(ValueKind::Int, kind_v(other)),
        ),
        (other, _) => Result::Err(ErrV::TypeMismatch(ValueKind::Int, kind_v(other))),
    }
}

/// What comparison over values returns. Both operands must be of the same
/// variant; two integers or two booleans compare by their order (`false <
/// true`); unit equals unit under `==`/`!=` only; two function values never
/// compare; any other combination is a type mismatch.
pub open spec fn compare_v(op: crate::ast::Infix, a: ValueV, b: ValueV) -> Result<ValueV, ErrV>
    recommends
        matches!(op, crate::ast::Infix::Eql | crate::ast::Infix::Neq | crate::ast::Infix::Lt
            | crate::ast::Infix::Lte | crate::ast::Infix::Gt | crate::ast::Infix::Gte),
{
    match (a, b) {
        (ValueV::Fn { .. }, ValueV::Fn { .. }) => Result::Err(ErrV::UncomparableFunction),
        (ValueV::Int(x), ValueV::Int(y)) => Result::Ok(ValueV::Bool(match op {
            crate::ast::Infix::Eql => x == y,
            crate::ast::Infix::Neq => x != y,
            crate::ast::Infix::Lt => x < y,
            crate::ast::Infix::Lte => x <= y,
            crate::ast::Infix::Gt => x > y,
            _ => x >= y,
        })),
        (ValueV::Bool(x), ValueV::Bool(y)) => Result::Ok(ValueV::Bool(match op {
            crate::ast::Infix::Eql => x == y,
            crate::ast::Infix::Neq => x != y,
            crate::ast::Infix::Lt => !x && y,
            crate::ast::Infix::Lte => !x || y,
            crate::ast::Infix::Gt => x && !y,
            _ => x || !y,
        })),
        (ValueV::Unit, ValueV::Unit) => match op {
            crate::ast::Infix::Eql => Result::Ok(ValueV::Bool(true)),
            crate::ast::Infix::Neq => Result::Ok(ValueV::Bool(false)),
            _ => Result::Err(ErrV::TypeMismatch(ValueKind::Int, ValueKind::Unit)),
        },
        (x, y) => Result::Err(ErrV::TypeMismatch(kind_v(x), kind_v(y))),
    }
}

/// Negation of a value: requires an integer; `-i64::MIN` wraps to itself.
pub open spec fn minus_v(a: ValueV) -> Result<ValueV, ErrV> {
    match a {
        ValueV::Int(x) => Result::Ok(ValueV::Int(sub_i64(0, x))),
        other => Result::Err(ErrV::TypeMismatch(ValueKind::Int, kind_v(other))),
    }
}

/// Logical not of a value: requires a boolean.
pub open spec fn not_v(a: ValueV) -> Result<ValueV, ErrV> {
    match a {
        ValueV::Bool(b) => Result::Ok(ValueV::Bool(!b)),
        other => Result::Err(ErrV::TypeMismatch(ValueKind::Bool, kind_v(other))),
    }
}

/// Adds two values; both must be integers.
pub fn eval_add(left: Value, right: Value) -> (r: Result<Value, RuntimeError>)
    ensures
        res_dv(r) == arith_v(crate::ast::Infix::Add, value_dv(left), value_dv(right)),
{
    match (left, right) {
        (Value::Int(a), Value::Int(b)) => Ok(Value::Int(a.wrapping_add(b))),
        (Value::Int(_), other) => Err(
            RuntimeError::TypeMismatch(ValueKind::Int, other.kind()),
        ),
        (other, _) => Err(RuntimeError::TypeMismatch(ValueKind::Int, other.kind())),
    }
}

/// Subtracts two values; both must be integers.
pub fn eval_sub(left: Value, right: Value) -> (r: Result<Value, RuntimeError>)
    ensures
        res_dv(r) == arith_v(crate::ast::Infix::Sub, value_dv(left), value_dv(right)),
{
    match (left, right) {
        (Value::Int(a), Value::Int(b)) => Ok(Value::Int(a.wrapping_sub(b))),
        (Value::Int(_), other) => Err(
            RuntimeError::TypeMismatch(ValueKind::Int, other.kind()),
        ),
        (other, _) => Err(RuntimeError::TypeMismatch(ValueKind::Int, other.kind())),
    }
}

/// Multiplies two values; both must be integers.
pub fn eval_mul(left: Value, right: Value) -> (r: Result<Value, RuntimeError>)
    ensures
        res_dv(r) == arith_v(crate::ast::Infix::Mul, value_dv(left), value_dv(right)),
{
    match (left, right) {
        (Value::Int(a), Value::Int(b)) => Ok(Value::Int(a.wrapping_mul(b))),
        (Value::Int(_), other) => Err(
            RuntimeError::TypeMismatch(ValueKind::Int, other.kind()),
        ),
        (other, _) => Err(RuntimeError::TypeMismatch(ValueKind::Int, other.kind())),
    }
}

/// Compares two values for equality; unit equals unit, two function values
/// never compare.
pub fn calc_eql(left: Value, right: Value) -> (r: Result<Value, RuntimeError>)
    ensures
        res_dv(r) == compare_v(crate::ast::Infix::Eql, value_dv(left), value_dv(right)),
{
    match (&left, &right) {
        (Value::Fn { .. }, Value::Fn { .. }) => Err(RuntimeError::UncomparableFunction),
        (Value::Int(a), Value::Int(b)) => Ok(Value::Bool(*a == *b)),
        (Value::Bool(a), Value::Bool(b)) => Ok(Value::Bool(*a == *b)),
        (Value::Unit, Value::Unit) => Ok(Value::Bool(true)),
        _ => Err(RuntimeError::TypeMismatch(left.kind(), right.kind())),
    }
}

/// Compares two values for inequality; the negation of `calc_eql` where that
/// is defined.
pub fn calc_neq(left: Value, right: Value) -> (r: Result<Value, RuntimeError>)
    ensures
        res_dv(r) == compare_v(crate::ast::Infix::Neq, value_dv(left), value_dv(right)),
{
    match (&left, &right) {
        (Value::Fn { .. }, Value::Fn { .. }) => Err(RuntimeError::UncomparableFunction),
        (Value::Int(a), Value::Int(b)) => Ok(Value::Bool(*a != *b)),
        (Value::Bool(a), Value::Bool(b)) => Ok(Value::Bool(*a != *b)),
        (Value::Unit, Value::Unit) => Ok(Value::Bool(false)),
        _ => Err(RuntimeError::TypeMismatch(left.kind(), right.kind())),
    }
}

/// Strict less-than on two integers or two booleans (`false < true`).
pub fn calc_lt(left: Value, right: Value) -> (r: Result<Value, RuntimeError>)
    ensures
        res_dv(r) == compare_v(crate::ast::Infix::Lt, value_dv(left), value_dv(right)),
{
    match (&left, &right) {
        (Value::Fn { .. }, Value::Fn { .. }) => Err(RuntimeError::UncomparableFunction),
        (Value::Int(a), Value::Int(b)) => Ok(Value::Bool(*a < *b)),
        (Value::Bool(a), Value::Bool(b)) => Ok(Value::Bool(!*a && *b)),
        (Value::Unit, Value::Unit) => Err(
            RuntimeError::TypeMismatch(ValueKind::Int, ValueKind::Unit),
        ),
        _ => Err(RuntimeError::TypeMismatch(left.kind(), right.kind())),
    }
}

/// Less-than-or-equal on two integers or two booleans.
pub fn calc_lte(left: Value, right: Value) -> (r: Result<Value, RuntimeError>)
    ensures
        res_dv(r) == compare_v(crate::ast::Infix::Lte, value_dv(left), value_dv(right)),
{
    match (&left, &right) {
        (Value::Fn { .. }, Value::Fn { .. }) => Err(RuntimeError::UncomparableFunction),
        (Value::Int(a), Value::Int(b)) => Ok(Value::Bool(*a <= *b)),
        (Value::Bool(a), Value::Bool(b)) => Ok(Value::Bool(!*a || *b)),
        (Value::Unit, Value::Unit) => Err(
            RuntimeError::TypeMismatch(ValueKind::Int, ValueKind::Unit),
        ),
        _ => Err(RuntimeError::TypeMismatch(left.kind(), right.kind())),
    }
}

/// Strict greater-than on two integers or two booleans.
pub fn calc_gt(left: Value, right: Value) -> (r: Result<Value, RuntimeError>)
    ensures
        res_dv(r) == compare_v(crate::ast::Infix::Gt, value_dv(left), value_dv(right)),
{
    match (&left, &right) {
        (Value::Fn { .. }, Value::Fn { .. }) => Err(RuntimeError::UncomparableFunction),
        (Value::Int(a), Value::Int(b)) => Ok(Value::Bool(*a > *b)),
        (Value::Bool(a), Value::Bool(b)) => Ok(Value::Bool(*a && !*b)),
        (Value::Unit, Value::Unit) => Err(
            RuntimeError::TypeMismatch(ValueKind::Int, ValueKind::Unit),
        ),
        _ => Err(RuntimeError::TypeMismatch(left.kind(), right.kind())),
    }
}

/// Greater-than-or-equal on two integers or two booleans.
pub fn calc_gte(left: Value, right: Value) -> (r: Result<Value, RuntimeError>)
    ensures
        res_dv(r) == compare_v(crate::ast::Infix::Gte, value_dv(left), value_dv(right)),
{
    match (&left, &right) {
        (Value::Fn { .. }, Value::Fn { .. }) => Err(RuntimeError::UncomparableFunction),
        (Value::Int(a), Value::Int(b)) => Ok(Value::Bool(*a >= *b)),
        (Value::Bool(a), Value::Bool(b)) => Ok(Value::Bool(*a || !*b)),
        (Value::Unit, Value::Unit) => Err(
            RuntimeError::TypeMismatch(ValueKind::Int, ValueKind::Unit),
        ),
        _ => Err(RuntimeError::TypeMismatch(left.kind(), right.kind())),
    }
}

/// A truncating quotient stays within the signed 64-bit range, except for
/// `i64::MIN / -1`.
pub proof fn lemma_trunc_div_in_range(a: i64, b: i64)
    requires
        b != 0,
        !(a == i64::MIN && b == -1),
    ensures
        i64::MIN as int <= trunc_div(a as int, b as int) <= i64::MAX as int,
{
    let x = a as int;
    let d = b as int;
    if x != 0 {
        let p: int = if x > 0 { x } else { -x };
        let q: int = if d > 0 { d } else { -d };
        vstd::arithmetic::div_mod::lemma_div_pos_is_pos(p, q);
        vstd::arithmetic::div_mod::lemma_div_nonincreasing(p, q);
        if x < 0 && d < 0 && a == i64::MIN {
            vstd::arithmetic::div_mod::lemma_div_decreases(p, q);
        }
    }
}

/// Divides two values; both must be integers, the divisor nonzero. The
/// quotient truncates toward zero.
pub fn eval_div(left: Value, right: Value) -> (r: Result<Value, RuntimeError>)
    ensures
        res_dv(r) == arith_v(crate::ast::Infix::Div, value_dv(left), value_dv(right)),
{
    match (left, right) {
        (Value::Int(a), Value::Int(b)) => {
            if b == 0 {
                Err(RuntimeError::DivisionByZero)
            } else {
                match a.checked_div(b) {
                    Some(q) => Ok(Value::Int(q)),
                    None => {
                        proof {
                            if !(a == i64::MIN && b == -1) {
                                lemma_trunc_div_in_range(a, b);
                            }
                        }
                        Ok(Value::Int(i64::MIN))
                    },
                }
            }
        },
        (Value::Int(_), other) => Err(
            RuntimeError::TypeMismatch(ValueKind::Int, other.kind()),
        ),
        (other, _) => Err(RuntimeError::TypeMismatch(ValueKind::Int, other.kind())),
    }
}

} // verus!
