//! The evaluator: statements and expressions reduce against a scope store,
//! and every outcome is one of a closed set — a value, an early return in
//! flight, a runtime error, or exhaustion of the step budget.
//!
//! Function calls may recurse without bound in the source language, so each
//! evaluation carries a fuel: entering a call costs one unit, and a call
//! attempted with no fuel left ends in `OutOfFuel`. Evaluation that performs
//! no call never spends fuel.
//!
//! The ghost functions here are the semantics; each executable function's
//! contract says it computes exactly them.

use vstd::prelude::*;

use crate::ast::{
    expr_dv, exprs_dv, lemma_exprs_dv, lemma_stmts_dv, stmt_dv, stmts_dv, strings_dv, BlockStmt,
    Expr, ExprV, Infix, Prefix, Statement, StmtV,
};
use crate::env::{env_assign, env_bind, env_lookup, EnvV, Environment};
use crate::value::{
    arith_v, compare_v, err_dv, kind_v, minus_v, not_v, value_dv, ErrV, RuntimeError, Value,
    ValueKind, ValueV,
};

verus! {

broadcast use lemma_stmts_dv, lemma_exprs_dv;

/// What evaluating an expression (or a block) produced: a value, an early
/// return passing through, a runtime error, or an exhausted step budget.
#[derive(Debug)]
pub enum ExprOutcome {
    Value(Value),
    Returning(Value),
    Error(RuntimeError),
    OutOfFuel,
}

/// What evaluating one statement produced. `Continue(None)` is a binding or
/// assignment, `Continue(Some(v))` an expression statement, `Returning` an
/// executed `return` that every enclosing block must pass through unchanged.
#[derive(Debug)]
pub enum StmtOutcome {
    Continue(Option<Value>),
    Returning(Value),
    Error(RuntimeError),
    OutOfFuel,
}

/// What a function call produced: the early return is consumed by the call,
/// so only a value, an error or fuel exhaustion comes out.
#[derive(Debug)]
pub enum CallOutcome {
    Value(Value),
    Error(RuntimeError),
    OutOfFuel,
}

/// Ghost mirror of `ExprOutcome`.
pub enum ExprOutV {
    Value(ValueV),
    Returning(ValueV),
    Error(ErrV),
    OutOfFuel,
}

/// Ghost mirror of `StmtOutcome`.
pub enum StmtOutV {
    Continue(Option<ValueV>),
    Returning(ValueV),
    Error(ErrV),
    OutOfFuel,
}

/// Ghost mirror of `CallOutcome`.
pub enum CallOutV {
    Value(ValueV),
    Error(ErrV),
    OutOfFuel,
}

/// What evaluating an argument list produced.
pub enum ArgsOutV {
    Values(Seq<ValueV>),
    Returning(ValueV),
    Error(ErrV),
    OutOfFuel,
}

/// Ghost view of an expression outcome.
pub open spec fn expr_out_dv(r: ExprOutcome) -> ExprOutV {
    match r {
        ExprOutcome::Value(v) => ExprOutV::Value(value_dv(v)),
        ExprOutcome::Returning(v) => ExprOutV::Returning(value_dv(v)),
        ExprOutcome::Error(e) => ExprOutV::Error(err_dv(e)),
        ExprOutcome::OutOfFuel => ExprOutV::OutOfFuel,
    }
}

/// Ghost view of a statement outcome.
pub open spec fn stmt_out_dv(r: StmtOutcome) -> StmtOutV {
    match r {
        StmtOutcome::Continue(o) => StmtOutV::Continue(opt_value_dv(o)),
        StmtOutcome::Returning(v) => StmtOutV::Returning(value_dv(v)),
        StmtOutcome::Error(e) => StmtOutV::Error(err_dv(e)),
        StmtOutcome::OutOfFuel => StmtOutV::OutOfFuel,
    }
}

/// Ghost view of a call outcome.
pub open spec fn call_out_dv(r: CallOutcome) -> CallOutV {
    match r {
        CallOutcome::Value(v) => CallOutV::Value(value_dv(v)),
        CallOutcome::Error(e) => CallOutV::Error(err_dv(e)),
        CallOutcome::OutOfFuel => CallOutV::OutOfFuel,
    }
}

/// What evaluating an argument list produced: the values in order, or the
/// first early return, error or fuel exhaustion among them.
pub enum ArgsOutcome {
    Values(Vec<Value>),
    Returning(Value),
    Error(RuntimeError),
    OutOfFuel,
}

/// Ghost view of an argument-list outcome.
pub open spec fn args_out_dv(r: ArgsOutcome) -> ArgsOutV {
    match r {
        ArgsOutcome::Values(vs) => ArgsOutV::Values(values_dv(vs@)),
        ArgsOutcome::Returning(v) => ArgsOutV::Returning(value_dv(v)),
        ArgsOutcome::Error(e) => ArgsOutV::Error(err_dv(e)),
        ArgsOutcome::OutOfFuel => ArgsOutV::OutOfFuel,
    }
}

/// Ghost view of an optional value.
pub open spec fn opt_value_dv(o: Option<Value>) -> Option<ValueV> {
    match o {
        Option::Some(v) => Option::Some(value_dv(v)),
        Option::None => Option::None,
    }
}

/// Ghost view of a value list.
pub open spec fn values_dv(vs: Seq<Value>) -> Seq<ValueV> {
    Seq::new(vs.len(), |i: int| value_dv(vs[i]))
}

/// Ghost view of an optional self-name.
pub open spec fn opt_name_dv(o: Option<&str>) -> Option<Seq<char>> {
    match o {
        Option::Some(n) => Option::Some(n@),
        Option::None => Option::None,
    }
}

/// Reduces an expression: the store it leaves behind and what came out.
/// Arguments are evaluated left to right and before the callee; a call costs
/// one unit of fuel; an `if` requires a boolean condition and evaluates one
/// arm as a block; a `return` reached inside an arm passes through.
pub open spec fn eval_expr_s(fuel: nat, env: EnvV, e: ExprV) -> (EnvV, ExprOutV)
    decreases fuel, e, 0int,
{
    match e {
        ExprV::Ident(n) => (
            env,
            match env_lookup(env, n) {
                Option::Some(v) => ExprOutV::Value(v),
                Option::None => ExprOutV::Error(ErrV::UnknownVariable(n)),
            },
        ),
        ExprV::Literal(l) => (
            env,
            ExprOutV::Value(
                match l {
                    crate::ast::Literal::Int(n) => ValueV::Int(n),
                    crate::ast::Literal::Bool(b) => ValueV::Bool(b),
                },
            ),
        ),
        ExprV::UnExpr(op, e1) => {
            let (env1, out) = eval_expr_s(fuel, env, *e1);
            (
                env1,
                match out {
                    ExprOutV::Value(v) => match (match op {
                        Prefix::Minus => minus_v(v),
                        Prefix::Not => not_v(v),
                    }) {
                        Result::Ok(v2) => ExprOutV::Value(v2),
                        Result::Err(er) => ExprOutV::Error(er),
                    },
                    other => other,
                },
            )
        },
        ExprV::BinExpr(l, op, r) => {
            let (env1, lout) = eval_expr_s(fuel, env, *l);
            match lout {
                ExprOutV::Value(lv) => {
                    let (env2, rout) = eval_expr_s(fuel, env1, *r);
                    (
                        env2,
                        match rout {
                            ExprOutV::Value(rv) => match (match op {
                                Infix::Add | Infix::Sub | Infix::Mul | Infix::Div => arith_v(
                                    op,
                                    lv,
                                    rv,
                                ),
                                _ => compare_v(op, lv, rv),
                            }) {
                                Result::Ok(v2) => ExprOutV::Value(v2),
                                Result::Err(er) => ExprOutV::Error(er),
                            },
                            other => other,
                        },
                    )
                },
                other => (env1, other),
            }
        },
        ExprV::Function { params, body } => (env, ExprOutV::Value(ValueV::Fn { params, body })),
        ExprV::Call { func, args } => {
            let (env1, aout) = eval_args_s(fuel, env, args, 0, Seq::empty());
            match aout {
                ArgsOutV::Values(vs) => (env1, eval_callee_s(fuel, env1, *func, vs)),
                ArgsOutV::Returning(v) => (env1, ExprOutV::Returning(v)),
                ArgsOutV::Error(er) => (env1, ExprOutV::Error(er)),
                ArgsOutV::OutOfFuel => (env1, ExprOutV::OutOfFuel),
            }
        },
        ExprV::If { cond, then, els } => {
            let (env1, cout) = eval_expr_s(fuel, env, *cond);
            match cout {
                ExprOutV::Value(ValueV::Bool(true)) => eval_block_s(fuel, env1, then),
                ExprOutV::Value(ValueV::Bool(false)) => match els {
                    Option::Some(b) => eval_block_s(fuel, env1, b),
                    Option::None => (env1, ExprOutV::Value(ValueV::Unit)),
                },
                ExprOutV::Value(v) => (
                    env1,
                    ExprOutV::Error(ErrV::TypeMismatch(ValueKind::Bool, kind_v(v))),
                ),
                other => (env1, other),
            }
        },
    }
}

/// A call outcome seen as an expression outcome.
pub open spec fn call_to_expr_out(c: CallOutV) -> ExprOutV {
    match c {
        CallOutV::Value(v) => ExprOutV::Value(v),
        CallOutV::Error(e) => ExprOutV::Error(e),
        CallOutV::OutOfFuel => ExprOutV::OutOfFuel,
    }
}

/// Resolves a call once its arguments are values: only a name bound to a
/// function value, or a function literal, may be called; the store is left
/// untouched. Entering the call costs one unit of fuel.
pub open spec fn eval_callee_s(fuel: nat, env: EnvV, f: ExprV, vs: Seq<ValueV>) -> ExprOutV
    decreases fuel, f, 0int,
{
    match f {
        ExprV::Ident(n) => match env_lookup(env, n) {
            Option::Some(ValueV::Fn { params, body }) => if fuel == 0 {
                ExprOutV::OutOfFuel
            } else {
                call_to_expr_out(
                    eval_call_s((fuel - 1) as nat, params, body, vs, Option::Some(n)),
                )
            },
            Option::Some(_) => ExprOutV::Error(ErrV::NotCallable),
            Option::None => ExprOutV::Error(ErrV::UnknownVariable(n)),
        },
        ExprV::Function { params, body } => if fuel == 0 {
            ExprOutV::OutOfFuel
        } else {
            call_to_expr_out(eval_call_s((fuel - 1) as nat, params, body, vs, Option::None))
        },
        _ => ExprOutV::Error(ErrV::NotCallable),
    }
}

/// Reduces the argument expressions from position `i` on, left to right,
/// appending their values to `acc`.
pub open spec fn eval_args_s(fuel: nat, env: EnvV, es: Seq<ExprV>, i: int, acc: Seq<ValueV>) -> (
    EnvV,
    ArgsOutV,
)
    decreases fuel, es, es.len() - i,
{
    if i < 0 || i >= es.len() {
        (env, ArgsOutV::Values(acc))
    } else {
        let (env1, out) = eval_expr_s(fuel, env, es[i]);
        match out {
            ExprOutV::Value(v) => eval_args_s(fuel, env1, es, i + 1, acc.push(v)),
            ExprOutV::Returning(v) => (env1, ArgsOutV::Returning(v)),
            ExprOutV::Error(er) => (env1, ArgsOutV::Error(er)),
            ExprOutV::OutOfFuel => (env1, ArgsOutV::OutOfFuel),
        }
    }
}

/// Executes one statement. `let` evaluates then binds in the current frame;
/// assignment evaluates then overwrites the innermost visible binding; an
/// expression statement yields its value; `return` starts an early return.
pub open spec fn eval_stmt_s(fuel: nat, env: EnvV, s: StmtV) -> (EnvV, StmtOutV)
    decreases fuel, s, 0int,
{
    match s {
        StmtV::Let { name, value } => {
            let (env1, out) = eval_expr_s(fuel, env, value);
            match out {
                ExprOutV::Value(v) => match env_bind(env1, name, v) {
                    Result::Ok(env2) => (env2, StmtOutV::Continue(Option::None)),
                    Result::Err(er) => (env1, StmtOutV::Error(er)),
                },
                ExprOutV::Returning(v) => (env1, StmtOutV::Returning(v)),
                ExprOutV::Error(er) => (env1, StmtOutV::Error(er)),
                ExprOutV::OutOfFuel => (env1, StmtOutV::OutOfFuel),
            }
        },
        StmtV::Assign { name, value } => {
            let (env1, out) = eval_expr_s(fuel, env, value);
            match out {
                ExprOutV::Value(v) => match env_assign(env1, name, v) {
                    Result::Ok(env2) => (env2, StmtOutV::Continue(Option::None)),
                    Result::Err(er) => (env1, StmtOutV::Error(er)),
                },
                ExprOutV::Returning(v) => (env1, StmtOutV::Returning(v)),
                ExprOutV::Error(er) => (env1, StmtOutV::Error(er)),
                ExprOutV::OutOfFuel => (env1, StmtOutV::OutOfFuel),
            }
        },
        StmtV::Expr(e) => {
            let (env1, out) = eval_expr_s(fuel, env, e);
            match out {
                ExprOutV::Value(v) => (env1, StmtOutV::Continue(Option::Some(v))),
                ExprOutV::Returning(v) => (env1, StmtOutV::Returning(v)),
                ExprOutV::Error(er) => (env1, StmtOutV::Error(er)),
                ExprOutV::OutOfFuel => (env1, StmtOutV::OutOfFuel),
            }
        },
        StmtV::Return(e) => {
            let (env1, out) = eval_expr_s(fuel, env, e);
            match out {
                ExprOutV::Value(v) => (env1, StmtOutV::Returning(v)),
                ExprOutV::Returning(v) => (env1, StmtOutV::Returning(v)),
                ExprOutV::Error(er) => (env1, StmtOutV::Error(er)),
                ExprOutV::OutOfFuel => (env1, StmtOutV::OutOfFuel),
            }
        },
    }
}

/// Runs the statements from position `i` on, in order. `last` is the value
/// of the latest expression statement seen. The first `Returning`, error or
/// exhaustion stops the run; otherwise the result is the value of the last
/// expression statement, or unit if there was none.
pub open spec fn eval_stmts_s(
    fuel: nat,
    env: EnvV,
    ss: Seq<StmtV>,
    i: int,
    last: Option<ValueV>,
) -> (EnvV, ExprOutV)
    decreases fuel, ss, ss.len() - i,
{
    if i < 0 || i >= ss.len() {
        (
            env,
            ExprOutV::Value(
                match last {
                    Option::Some(v) => v,
                    Option::None => ValueV::Unit,
                },
            ),
        )
    } else {
        let (env1, out) = eval_stmt_s(fuel, env, ss[i]);
        match out {
            StmtOutV::Continue(opt) => eval_stmts_s(
                fuel,
                env1,
                ss,
                i + 1,
                match opt {
                    Option::Some(v) => Option::Some(v),
                    Option::None => last,
                },
            ),
            StmtOutV::Returning(v) => (env1, ExprOutV::Returning(v)),
            StmtOutV::Error(er) => (env1, ExprOutV::Error(er)),
            StmtOutV::OutOfFuel => (env1, ExprOutV::OutOfFuel),
        }
    }
}

/// Evaluates a block: a fresh frame is pushed, the statements run in order,
/// and the frame is popped again on every way out, an early return included.
pub open spec fn eval_block_s(fuel: nat, env: EnvV, ss: Seq<StmtV>) -> (EnvV, ExprOutV)
    decreases fuel, ss, ss.len() + 1,
{
    let (env1, out) = eval_stmts_s(fuel, env.push(Seq::empty()), ss, 0, Option::None);
    (env1.drop_last(), out)
}

/// Binds parameter `i` and the following ones to their argument values, in
/// order, in the current frame.
pub open spec fn bind_params_s(env: EnvV, names: Seq<Seq<char>>, vals: Seq<ValueV>, i: int) -> Result<
    EnvV,
    ErrV,
>
    recommends
        names.len() == vals.len(),
    decreases names.len() - i,
{
    if i < 0 || i >= names.len() {
        Result::Ok(env)
    } else {
        match env_bind(env, names[i], vals[i]) {
            Result::Ok(env1) => bind_params_s(env1, names, vals, i + 1),
            Result::Err(er) => Result::Err(er),
        }
    }
}

/// The function-call protocol. The argument count must match the parameter
/// count. A brand-new store of one frame is seeded with the self-name (for
/// recursion by name, when the call went through a name) and then the
/// parameters in order; the body runs directly in that frame; an early
/// return is consumed here and becomes the call's value, otherwise the value
/// of the body's last expression statement (or unit) comes back. The store
/// does not outlive the call.
pub open spec fn eval_call_s(
    fuel: nat,
    params: Seq<Seq<char>>,
    body: Seq<StmtV>,
    args: Seq<ValueV>,
    selfname: Option<Seq<char>>,
) -> CallOutV
    decreases fuel, body, body.len() + 2,
{
    if args.len() != params.len() {
        CallOutV::Error(ErrV::ArityMismatch(params.len(), args.len()))
    } else {
        let env0: EnvV = seq![Seq::empty()];
        let env_self = match selfname {
            Option::Some(n) => env_bind(env0, n, ValueV::Fn { params, body }),
            Option::None => Result::Ok(env0),
        };
        match env_self {
            Result::Err(er) => CallOutV::Error(er),
            Result::Ok(env1) => match bind_params_s(env1, params, args, 0) {
                Result::Err(er) => CallOutV::Error(er),
                Result::Ok(env2) => {
                    let (_env3, out) = eval_stmts_s(fuel, env2, body, 0, Option::None);
                    match out {
                        ExprOutV::Value(v) => CallOutV::Value(v),
                        ExprOutV::Returning(v) => CallOutV::Value(v),
                        ExprOutV::Error(er) => CallOutV::Error(er),
                        ExprOutV::OutOfFuel => CallOutV::OutOfFuel,
                    }
                },
            },
        }
    }
}

/// Assignment never changes how many frames the store has.
proof fn lemma_assign_len(env: EnvV, n: Seq<char>, v: ValueV, j: int)
    ensures
        match crate::env::env_assign_from(env, n, v, j) {
            Result::Ok(e2) => e2.len() == env.len(),
            Result::Err(_) => true,
        },
    decreases j + 1,
{
    if 0 <= j < env.len() && !crate::env::frame_contains(env[j], n) {
        lemma_assign_len(env, n, v, j - 1);
    }
}

/// Reducing an expression never changes how many frames the store has.
pub proof fn lemma_expr_len(fuel: nat, env: EnvV, e: ExprV)
    ensures
        eval_expr_s(fuel, env, e).0.len() == env.len(),
    decreases fuel, e, 0int,
{
    match e {
        ExprV::UnExpr(_op, e1) => {
            lemma_expr_len(fuel, env, *e1);
        },
        ExprV::BinExpr(l, _op, r) => {
            lemma_expr_len(fuel, env, *l);
            let (env1, lout) = eval_expr_s(fuel, env, *l);
            if lout is Value {
                lemma_expr_len(fuel, env1, *r);
            }
        },
        ExprV::Call { func: _, args } => {
            lemma_args_len(fuel, env, args, 0, Seq::empty());
        },
        ExprV::If { cond, then, els } => {
            lemma_expr_len(fuel, env, *cond);
            let (env1, cout) = eval_expr_s(fuel, env, *cond);
            match cout {
                ExprOutV::Value(ValueV::Bool(true)) => {
                    lemma_block_len(fuel, env1, then);
                },
                ExprOutV::Value(ValueV::Bool(false)) => {
                    if let Option::Some(b) = els {
                        lemma_block_len(fuel, env1, b);
                    }
                },
                _ => {},
            }
        },
        _ => {},
    }
}

/// Reducing an argument list never changes how many frames the store has.
pub proof fn lemma_args_len(fuel: nat, env: EnvV, es: Seq<ExprV>, i: int, acc: Seq<ValueV>)
    ensures
        eval_args_s(fuel, env, es, i, acc).0.len() == env.len(),
    decreases fuel, es, es.len() - i,
{
    if 0 <= i < es.len() {
        lemma_expr_len(fuel, env, es[i]);
        let (env1, out) = eval_expr_s(fuel, env, es[i]);
        if let ExprOutV::Value(v) = out {
            lemma_args_len(fuel, env1, es, i + 1, acc.push(v));
        }
    }
}

/// Executing one statement never changes how many frames the store has.
pub proof fn lemma_stmt_len(fuel: nat, env: EnvV, s: StmtV)
    requires
        env.len() > 0,
    ensures
        eval_stmt_s(fuel, env, s).0.len() == env.len(),
    decreases fuel, s, 0int,
{
    match s {
        StmtV::Let { name, value } => {
            lemma_expr_len(fuel, env, value);
        },
        StmtV::Assign { name, value } => {
            lemma_expr_len(fuel, env, value);
            let (env1, out) = eval_expr_s(fuel, env, value);
            if let ExprOutV::Value(v) = out {
                lemma_assign_len(env1, name, v, env1.len() - 1);
            }
        },
        StmtV::Expr(e) => {
            lemma_expr_len(fuel, env, e);
        },
        StmtV::Return(e) => {
            lemma_expr_len(fuel, env, e);
        },
    }
}

/// Running a statement list never changes how many frames the store has.
pub proof fn lemma_stmts_len(fuel: nat, env: EnvV, ss: Seq<StmtV>, i: int, last: Option<ValueV>)
    requires
        env.len() > 0,
    ensures
        eval_stmts_s(fuel, env, ss, i, last).0.len() == env.len(),
    decreases fuel, ss, ss.len() - i,
{
    if 0 <= i < ss.len() {
        lemma_stmt_len(fuel, env, ss[i]);
        let (env1, out) = eval_stmt_s(fuel, env, ss[i]);
        if let StmtOutV::Continue(opt) = out {
            lemma_stmts_len(
                fuel,
                env1,
                ss,
                i + 1,
                match opt {
                    Option::Some(v) => Option::Some(v),
                    Option::None => last,
                },
            );
        }
    }
}

/// Evaluating a block never changes how many frames the store has: the
/// frame it pushes is popped on every way out.
pub proof fn lemma_block_len(fuel: nat, env: EnvV, ss: Seq<StmtV>)
    ensures
        eval_block_s(fuel, env, ss).0.len() == env.len(),
    decreases fuel, ss, ss.len() + 1,
{
    lemma_stmts_len(fuel, env.push(Seq::empty()), ss, 0, Option::None);
}


/// Walks the statement/expression tree against one scope store.
pub struct Evaluator {
    pub env: Environment,
}

impl Evaluator {
    /// A fresh evaluator. Its store holds a single empty frame; when a
    /// self-name with parameters and body is given (for recursion by name),
    /// that frame starts with the name bound to the function value.
    pub fn new(self_func: Option<(&str, Vec<String>, Vec<Statement>)>) -> (r: Evaluator)
        ensures
            match self_func {
                Option::None => r.env@ == seq![Seq::<(Seq<char>, ValueV)>::empty()],
                Option::Some(t) => r.env@ == seq![
                    seq![
                        (
                            t.0@,
                            ValueV::Fn { params: strings_dv(t.1@), body: stmts_dv(t.2@) },
                        ),
                    ],
                ],
            },
    {
        let mut env = Environment::new();
        match self_func {
            Option::Some((name, params, body)) => {
                let ghost e0 = env@;
                let ghost fnv = ValueV::Fn { params: strings_dv(params@), body: stmts_dv(body@) };
                let res = env.bind(name, Value::Fn { params, body });
                proof {
                    assert(!crate::env::frame_contains(e0.last(), name@));
                    assert(env@ =~~= seq![seq![(name@, fnv)]]);
                }
                let _ = res;
                Evaluator { env }
            },
            Option::None => Evaluator { env },
        }
    }

    /// Executes one statement against this store; exactly `eval_stmt_s`.
    pub fn eval(&mut self, ast: &Statement, fuel: u64) -> (r: StmtOutcome)
        requires
            old(self).env@.len() > 0,
        ensures
            ({
                let (e2, out) = eval_stmt_s(fuel as nat, old(self).env@, stmt_dv(*ast));
                final(self).env@ == e2 && stmt_out_dv(r) == out
            }),
        decreases fuel, *ast,
    {
        match ast {
            Statement::Let { name, value } => {
                match self.eval_expr(value, fuel) {
                    ExprOutcome::Value(v) => {
                        proof {
                            lemma_expr_len(fuel as nat, old(self).env@, expr_dv(*value));
                        }
                        match self.env.bind(name.as_str(), v) {
                            Result::Ok(_) => StmtOutcome::Continue(None),
                            Result::Err(e) => StmtOutcome::Error(e),
                        }
                    },
                    ExprOutcome::Returning(v) => StmtOutcome::Returning(v),
                    ExprOutcome::Error(e) => StmtOutcome::Error(e),
                    ExprOutcome::OutOfFuel => StmtOutcome::OutOfFuel,
                }
            },
            Statement::Assign { name, value } => {
                match self.eval_expr(value, fuel) {
                    ExprOutcome::Value(v) => {
                        match self.env.set(name.as_str(), v) {
                            Result::Ok(_) => StmtOutcome::Continue(None),
                            Result::Err(e) => StmtOutcome::Error(e),
                        }
                    },
                    ExprOutcome::Returning(v) => StmtOutcome::Returning(v),
                    ExprOutcome::Error(e) => StmtOutcome::Error(e),
                    ExprOutcome::OutOfFuel => StmtOutcome::OutOfFuel,
                }
            },
            Statement::Expr(e) => {
                match self.eval_expr(e, fuel) {
                    ExprOutcome::Value(v) => StmtOutcome::Continue(Some(v)),
                    ExprOutcome::Returning(v) => StmtOutcome::Returning(v),
                    ExprOutcome::Error(er) => StmtOutcome::Error(er),
                    ExprOutcome::OutOfFuel => StmtOutcome::OutOfFuel,
                }
            },
            Statement::Return(e) => {
                match self.eval_expr(e, fuel) {
                    ExprOutcome::Value(v) => StmtOutcome::Returning(v),
                    ExprOutcome::Returning(v) => StmtOutcome::Returning(v),
                    ExprOutcome::Error(er) => StmtOutcome::Error(er),
                    ExprOutcome::OutOfFuel => StmtOutcome::OutOfFuel,
                }
            },
        }
    }

    /// Reduces one expression against this store; exactly `eval_expr_s`.
    #[verifier::rlimit(100)]
    fn eval_expr(&mut self, expr: &Expr, fuel: u64) -> (r: ExprOutcome)
        ensures
            ({
                let (e2, out) = eval_expr_s(fuel as nat, old(self).env@, expr_dv(*expr));
                final(self).env@ == e2 && expr_out_dv(r) == out
            }),
        decreases fuel, *expr,
    {
        match expr {
            Expr::Ident(n) => {
                match self.env.get(n.as_str()) {
                    Result::Ok(v) => ExprOutcome::Value(v),
                    Result::Err(e) => ExprOutcome::Error(e),
                }
            },
            Expr::Literal(l) => {
                match l {
                    crate::ast::Literal::Int(n) => ExprOutcome::Value(Value::Int(*n)),
                    crate::ast::Literal::Bool(b) => ExprOutcome::Value(Value::Bool(*b)),
                }
            },
            Expr::UnExpr(op, e1) => {
                match self.eval_expr(e1, fuel) {
                    ExprOutcome::Value(v) => match op {
                        Prefix::Minus => match v {
                            Value::Int(x) => ExprOutcome::Value(Value::Int(0i64.wrapping_sub(x))),
                            other => ExprOutcome::Error(
                                RuntimeError::TypeMismatch(ValueKind::Int, other.kind()),
                            ),
                        },
                        Prefix::Not => match v {
                            Value::Bool(b) => ExprOutcome::Value(Value::Bool(!b)),
                            other => ExprOutcome::Error(
                                RuntimeError::TypeMismatch(ValueKind::Bool, other.kind()),
                            ),
                        },
                    },
                    other => other,
                }
            },
            Expr::BinExpr(l, op, r2) => {
                match self.eval_expr(l, fuel) {
                    ExprOutcome::Value(lv) => {
                        match self.eval_expr(r2, fuel) {
                            ExprOutcome::Value(rv) => {
                                let res = match op {
                                    Infix::Add => crate::value::eval_add(lv, rv),
                                    Infix::Sub => crate::value::eval_sub(lv, rv),
                                    Infix::Mul => crate::value::eval_mul(lv, rv),
                                    Infix::Div => crate::value::eval_div(lv, rv),
                                    Infix::Eql => crate::value::calc_eql(lv, rv),
                                    Infix::Neq => crate::value::calc_neq(lv, rv),
                                    Infix::Lt => crate::value::calc_lt(lv, rv),
                                    Infix::Lte => crate::value::calc_lte(lv, rv),
                                    Infix::Gt => crate::value::calc_gt(lv, rv),
                                    Infix::Gte => crate::value::calc_gte(lv, rv),
                                };
                                match res {
                                    Result::Ok(v) => ExprOutcome::Value(v),
                                    Result::Err(e) => ExprOutcome::Error(e),
                                }
                            },
                            other => other,
                        }
                    },
                    other => other,
                }
            },
            Expr::Function { params, body } => ExprOutcome::Value(
                Value::Fn { params: crate::ast::copy_strings(params), body: crate::ast::copy_stmts(body) },
            ),
            Expr::Call { func, args } => {
                let ghost env0 = self.env@;
                let ghost argsv = exprs_dv(args@);
                let vals = match self.eval_args(args, fuel) {
                    ArgsOutcome::Values(vs) => vs,
                    ArgsOutcome::Returning(v) => {
                        return ExprOutcome::Returning(v);
                    },
                    ArgsOutcome::Error(e) => {
                        return ExprOutcome::Error(e);
                    },
                    ArgsOutcome::OutOfFuel => {
                        return ExprOutcome::OutOfFuel;
                    },
                };
                self.eval_callee(func, vals, fuel)
            },
            Expr::If { cond, then, els } => {
                match self.eval_expr(cond, fuel) {
                    ExprOutcome::Value(Value::Bool(true)) => self.eval_block(then, fuel),
                    ExprOutcome::Value(Value::Bool(false)) => match els {
                        Option::Some(b) => self.eval_block(b, fuel),
                        Option::None => ExprOutcome::Value(Value::Unit),
                    },
                    ExprOutcome::Value(other) => ExprOutcome::Error(
                        RuntimeError::TypeMismatch(ValueKind::Bool, other.kind()),
                    ),
                    other => other,
                }
            },
        }
    }

    /// Resolves a call whose arguments are already values; exactly
    /// `eval_callee_s`.
    #[verifier::rlimit(100)]
    fn eval_callee(&self, func: &Expr, vals: Vec<Value>, fuel: u64) -> (r: ExprOutcome)
        ensures
            expr_out_dv(r) == eval_callee_s(fuel as nat, self.env@, expr_dv(*func), values_dv(vals@)),
        decreases fuel, *func,
    {
        match func {
            Expr::Ident(name) => {
                match self.env.get(name.as_str()) {
                    Result::Ok(Value::Fn { params, body }) => {
                        if fuel == 0 {
                            return ExprOutcome::OutOfFuel;
                        }
                        let c = eval_func(&params, vals, &body, Some(name.as_str()), fuel - 1);
                        match c {
                            CallOutcome::Value(v) => ExprOutcome::Value(v),
                            CallOutcome::Error(e) => ExprOutcome::Error(e),
                            CallOutcome::OutOfFuel => ExprOutcome::OutOfFuel,
                        }
                    },
                    Result::Ok(_) => ExprOutcome::Error(RuntimeError::NotCallable),
                    Result::Err(e) => ExprOutcome::Error(e),
                }
            },
            Expr::Function { params, body } => {
                if fuel == 0 {
                    return ExprOutcome::OutOfFuel;
                }
                let c = eval_func(params, vals, body, None, fuel - 1);
                match c {
                    CallOutcome::Value(v) => ExprOutcome::Value(v),
                    CallOutcome::Error(e) => ExprOutcome::Error(e),
                    CallOutcome::OutOfFuel => ExprOutcome::OutOfFuel,
                }
            },
            _ => ExprOutcome::Error(RuntimeError::NotCallable),
        }
    }

    /// Reduces an argument list, left to right; exactly `eval_args_s`.
    #[verifier::rlimit(100)]
    #[verifier::loop_isolation(false)]
    fn eval_args(&mut self, args: &Vec<Expr>, fuel: u64) -> (r: ArgsOutcome)
        ensures
            ({
                let (e2, out) = eval_args_s(
                    fuel as nat,
                    old(self).env@,
                    exprs_dv(args@),
                    0,
                    Seq::empty(),
                );
                final(self).env@ == e2 && args_out_dv(r) == out
            }),
        decreases fuel, *args,
    {
        let ghost env0 = self.env@;
        let ghost argsv = exprs_dv(args@);
        let mut vals: Vec<Value> = Vec::new();
        proof {
            assert(values_dv(vals@) =~= Seq::empty());
        }
        let n = args.len();
        let mut i: usize = 0;
        while i < n
            invariant
                n == args@.len(),
                argsv == exprs_dv(args@),
                i <= n,
                eval_args_s(fuel as nat, env0, argsv, 0, Seq::empty()) == eval_args_s(
                    fuel as nat,
                    self.env@,
                    argsv,
                    i as int,
                    values_dv(vals@),
                ),
            decreases n - i,
        {
            let ghost pre_vals = values_dv(vals@);
            proof {
                lemma_exprs_dv(args@);
            }
            match self.eval_expr(&args[i], fuel) {
                ExprOutcome::Value(v) => {
                    vals.push(v);
                    proof {
                        assert(values_dv(vals@) =~= pre_vals.push(value_dv(v)));
                    }
                },
                ExprOutcome::Returning(v) => {
                    return ArgsOutcome::Returning(v);
                },
                ExprOutcome::Error(e) => {
                    return ArgsOutcome::Error(e);
                },
                ExprOutcome::OutOfFuel => {
                    return ArgsOutcome::OutOfFuel;
                },
            }
            i = i + 1;
        }
        ArgsOutcome::Values(vals)
    }

    /// Evaluates a statement list as a block, with its own frame; exactly
    /// `eval_block_s`.
    #[verifier::rlimit(100)]
    #[verifier::loop_isolation(false)]
    fn eval_block(&mut self, block: &BlockStmt, fuel: u64) -> (r: ExprOutcome)
        ensures
            ({
                let (e2, out) = eval_block_s(fuel as nat, old(self).env@, stmts_dv(block@));
                final(self).env@ == e2 && expr_out_dv(r) == out
            }),
        decreases fuel, *block,
    {
        self.env.push();
        let ghost ss = stmts_dv(block@);
        let ghost env_in = self.env@;
        let mut last: Option<Value> = None;
        let n = block.len();
        let mut i: usize = 0;
        while i < n
            invariant
                n == block@.len(),
                ss == stmts_dv(block@),
                i <= n,
                env_in.len() > 0,
                self.env@.len() == env_in.len(),
                eval_stmts_s(fuel as nat, env_in, ss, 0, None) == eval_stmts_s(
                    fuel as nat,
                    self.env@,
                    ss,
                    i as int,
                    opt_value_dv(last),
                ),
            decreases n - i,
        {
            let ghost env_i = self.env@;
            proof {
                lemma_stmts_dv(block@);
            }
            match self.eval(&block[i], fuel) {
                StmtOutcome::Continue(opt) => {
                    proof {
                        lemma_stmt_len(fuel as nat, env_i, ss[i as int]);
                    }
                    if let Some(v) = opt {
                        last = Some(v);
                    }
                },
                StmtOutcome::Returning(v) => {
                    proof {
                        lemma_stmt_len(fuel as nat, env_i, ss[i as int]);
                    }
                    self.env.pop();
                    return ExprOutcome::Returning(v);
                },
                StmtOutcome::Error(e) => {
                    proof {
                        lemma_stmt_len(fuel as nat, env_i, ss[i as int]);
                    }
                    self.env.pop();
                    return ExprOutcome::Error(e);
                },
                StmtOutcome::OutOfFuel => {
                    proof {
                        lemma_stmt_len(fuel as nat, env_i, ss[i as int]);
                    }
                    self.env.pop();
                    return ExprOutcome::OutOfFuel;
                },
            }
            i = i + 1;
        }
        self.env.pop();
        match last {
            Some(v) => ExprOutcome::Value(v),
            None => ExprOutcome::Value(Value::Unit),
        }
    }
}

/// The function-call protocol; exactly `eval_call_s`. Checks the arity,
/// seeds a brand-new store with the self-name (if the call went through a
/// name) and the parameters bound to the argument values in order, runs the
/// body directly in that frame, and resolves the result: an early return's
/// value, else the last expression statement's value, else unit.
#[verifier::rlimit(100)]
#[verifier::loop_isolation(false)]
pub fn eval_func(
    params: &Vec<String>,
    args: Vec<Value>,
    body: &Vec<Statement>,
    self_func: Option<&str>,
    fuel: u64,
) -> (r: CallOutcome)
    ensures
        call_out_dv(r) == eval_call_s(
            fuel as nat,
            strings_dv(params@),
            stmts_dv(body@),
            values_dv(args@),
            opt_name_dv(self_func),
        ),
    decreases fuel, *body,
{
    let ghost pv = strings_dv(params@);
    let ghost av = values_dv(args@);
    let ghost bodyv = stmts_dv(body@);
    if args.len() != params.len() {
        return CallOutcome::Error(RuntimeError::ArityMismatch(params.len(), args.len()));
    }
    let mut ev = match self_func {
        Some(name) => Evaluator::new(
            Some((name, crate::ast::copy_strings(params), crate::ast::copy_stmts(body))),
        ),
        None => Evaluator::new(None),
    };
    proof {
        let env0: EnvV = seq![Seq::empty()];
        assert(env0.last() =~= Seq::<(Seq<char>, ValueV)>::empty());
        match opt_name_dv(self_func) {
            Option::Some(nm) => {
                let fnv = ValueV::Fn { params: pv, body: bodyv };
                assert(!crate::env::frame_contains(env0.last(), nm));
                assert(env_bind(env0, nm, fnv) == Result::<EnvV, ErrV>::Ok(
                    env0.update(0, env0.last().push((nm, fnv))),
                ));
                assert(ev.env@ =~~= env0.update(0, env0.last().push((nm, fnv))));
            },
            Option::None => {
                assert(ev.env@ =~~= env0);
            },
        }
    }
    let ghost env1 = ev.env@;
    let n = params.len();
    let mut i: usize = 0;
    while i < n
        invariant
            n == params@.len(),
            n == args@.len(),
            pv == strings_dv(params@),
            av == values_dv(args@),
            i <= n,
            ev.env@.len() == 1,
            bind_params_s(env1, pv, av, 0) == bind_params_s(ev.env@, pv, av, i as int),
        decreases n - i,
    {
        match ev.env.bind(params[i].as_str(), args[i].deep_copy()) {
            Result::Ok(_) => {},
            Result::Err(e) => {
                return CallOutcome::Error(e);
            },
        }
        i = i + 1;
    }
    let ghost env2 = ev.env@;
    let mut last: Option<Value> = None;
    let m = body.len();
    let mut j: usize = 0;
    while j < m
        invariant
            m == body@.len(),
            bodyv == stmts_dv(body@),
            j <= m,
            ev.env@.len() > 0,
            eval_stmts_s(fuel as nat, env2, bodyv, 0, None) == eval_stmts_s(
                fuel as nat,
                ev.env@,
                bodyv,
                j as int,
                opt_value_dv(last),
            ),
        decreases m - j,
    {
        let ghost env_j = ev.env@;
        proof {
            lemma_stmts_dv(body@);
        }
        match ev.eval(&body[j], fuel) {
            StmtOutcome::Continue(opt) => {
                proof {
                    lemma_stmt_len(fuel as nat, env_j, bodyv[j as int]);
                }
                if let Some(v) = opt {
                    last = Some(v);
                }
            },
            StmtOutcome::Returning(v) => {
                return CallOutcome::Value(v);
            },
            StmtOutcome::Error(e) => {
                return CallOutcome::Error(e);
            },
            StmtOutcome::OutOfFuel => {
                return CallOutcome::OutOfFuel;
            },
        }
        j = j + 1;
    }
    match last {
        Some(v) => CallOutcome::Value(v),
        None => CallOutcome::Value(Value::Unit),
    }
}

} // verus!
