//! Laws of the language, proved once and for all inputs from the semantics
//! in `eval`: how division behaves, how binding, shadowing and assignment
//! interact with block frames, when a call is rejected for its arity, how an
//! early return cuts a statement list short, what a block is worth, and that
//! function values never compare.

use vstd::prelude::*;

use crate::ast::{ExprV, Infix, Literal, StmtV};
use crate::env::{
    env_assign, env_assign_from, env_lookup, env_lookup_from, frame_contains, frame_lookup,
    frame_lookup_from, frame_update_from, EnvV, FrameV,
};
use crate::eval::{
    eval_block_s, eval_call_s, eval_expr_s, eval_stmt_s, eval_stmts_s, CallOutV, ExprOutV,
    StmtOutV,
};
use crate::value::{compare_v, trunc_div, ErrV, ValueV};

verus! {

/// Dividing integer literals computes the quotient truncated toward zero —
/// for every store, every fuel, and all operands except the one pair whose
/// exact quotient has no 64-bit representation (`i64::MIN / -1`, which
/// wraps).
pub proof fn lemma_division_truncates(fuel: nat, env: EnvV, a: i64, b: i64)
    requires
        b != 0,
        !(a == i64::MIN && b == -1),
    ensures
        eval_expr_s(
            fuel,
            env,
            ExprV::BinExpr(
                Box::new(ExprV::Literal(Literal::Int(a))),
                Infix::Div,
                Box::new(ExprV::Literal(Literal::Int(b))),
            ),
        ) == (env, ExprOutV::Value(ValueV::Int(trunc_div(a as int, b as int) as i64))),
        i64::MIN as int <= trunc_div(a as int, b as int) <= i64::MAX as int,
{
    reveal_with_fuel(eval_expr_s, 3);
    crate::value::lemma_trunc_div_in_range(a, b);
}

/// Dividing by a zero literal fails with `DivisionByZero` — never a panic,
/// never a value.
pub proof fn lemma_division_by_zero(fuel: nat, env: EnvV, a: i64)
    ensures
        eval_expr_s(
            fuel,
            env,
            ExprV::BinExpr(
                Box::new(ExprV::Literal(Literal::Int(a))),
                Infix::Div,
                Box::new(ExprV::Literal(Literal::Int(0))),
            ),
        ) == (env, ExprOutV::Error(ErrV::DivisionByZero)),
{
    reveal_with_fuel(eval_expr_s, 3);
}

/// Binding the same name twice in one block fails with `DuplicateBinding`,
/// whatever the block's store held before, and leaves the store as it was.
#[verifier::rlimit(100)]
pub proof fn lemma_duplicate_binding(fuel: nat, env: EnvV, n: Seq<char>, v1: i64, v2: i64)
    ensures
        eval_block_s(
            fuel,
            env,
            seq![
                StmtV::Let { name: n, value: ExprV::Literal(Literal::Int(v1)) },
                StmtV::Let { name: n, value: ExprV::Literal(Literal::Int(v2)) },
            ],
        ) == (env, ExprOutV::Error(ErrV::DuplicateBinding(n))),
{
    reveal_with_fuel(eval_expr_s, 2);
    reveal_with_fuel(eval_stmts_s, 3);
    let ss = seq![
        StmtV::Let { name: n, value: ExprV::Literal(Literal::Int(v1)) },
        StmtV::Let { name: n, value: ExprV::Literal(Literal::Int(v2)) },
    ];
    let env0 = env.push(Seq::empty());
    assert(env0.last() =~= Seq::<(Seq<char>, ValueV)>::empty());
    let f1: FrameV = seq![(n, ValueV::Int(v1))];
    let env1 = env0.update(env0.len() - 1, env0.last().push((n, ValueV::Int(v1))));
    assert(env1.last() =~= f1);
    assert(frame_lookup(env1.last(), n) == Option::Some(ValueV::Int(v1)));
    assert(eval_stmt_s(fuel, env0, ss[0]) == (env1, StmtOutV::Continue(Option::<ValueV>::None)));
    assert(eval_stmt_s(fuel, env1, ss[1]) == (
        env1,
        StmtOutV::Error(ErrV::DuplicateBinding(n)),
    ));
    assert(eval_stmts_s(fuel, env0, ss, 0, Option::None) == (
        env1,
        ExprOutV::Error(ErrV::DuplicateBinding(n)),
    ));
    assert(env1.drop_last() =~= env);
}

/// Shadow, then unshadow: a block may rebind a name that an enclosing frame
/// already binds; when the block exits, its frame is gone, the store is
/// exactly what it was, and the outer binding is visible again.
#[verifier::rlimit(100)]
pub proof fn lemma_shadow_then_unshadow(fuel: nat, env: EnvV, n: Seq<char>, w: i64)
    ensures
        eval_block_s(
            fuel,
            env,
            seq![StmtV::Let { name: n, value: ExprV::Literal(Literal::Int(w)) }],
        ) == (env, ExprOutV::Value(ValueV::Unit)),
        eval_block_s(
            fuel,
            env,
            seq![StmtV::Let { name: n, value: ExprV::Literal(Literal::Int(w)) }],
        ).0 == env,
{
    reveal_with_fuel(eval_expr_s, 2);
    reveal_with_fuel(eval_stmts_s, 3);
    let ss = seq![StmtV::Let { name: n, value: ExprV::Literal(Literal::Int(w)) }];
    let env0 = env.push(Seq::empty());
    assert(env0.last() =~= Seq::<(Seq<char>, ValueV)>::empty());
    let env1 = env0.update(env0.len() - 1, env0.last().push((n, ValueV::Int(w))));
    assert(eval_stmt_s(fuel, env0, ss[0]) == (env1, StmtOutV::Continue(Option::<ValueV>::None)));
    assert(eval_stmts_s(fuel, env0, ss, 0, Option::None) == (env1, ExprOutV::Value(ValueV::Unit)));
    assert(env1.drop_last() =~= env);
}

/// A name that no scan from frame `j` outward finds cannot be assigned
/// either: the scans agree frame by frame.
proof fn lemma_unbound_assign(env: EnvV, n: Seq<char>, v: ValueV, j: int)
    requires
        env_lookup_from(env, n, j) is None,
    ensures
        env_assign_from(env, n, v, j) == Result::<EnvV, ErrV>::Err(ErrV::UnknownVariable(n)),
    decreases j + 1,
{
    if 0 <= j < env.len() {
        lemma_unbound_assign(env, n, v, j - 1);
    }
}

/// Assignment to a name bound in no visible frame fails with
/// `UnknownVariable`, and the store is left as it was.
pub proof fn lemma_assign_undeclared(fuel: nat, env: EnvV, n: Seq<char>, w: i64)
    requires
        env_lookup(env, n) is None,
    ensures
        eval_stmt_s(
            fuel,
            env,
            StmtV::Assign { name: n, value: ExprV::Literal(Literal::Int(w)) },
        ) == (env, StmtOutV::Error(ErrV::UnknownVariable(n))),
{
    lemma_unbound_assign(env, n, ValueV::Int(w), env.len() - 1);
}

/// Replacing a binding inside one frame is visible to the same scan that
/// found it, and touches no other binding's name.
proof fn lemma_frame_update_lookup(f: FrameV, n: Seq<char>, v: ValueV, i: int)
    requires
        frame_lookup_from(f, n, i) is Some,
    ensures
        ({
            let fu = frame_update_from(f, n, v, i);
            fu.len() == f.len() && frame_lookup_from(fu, n, i) == Option::Some(v) && forall|k: int|
                0 <= k < f.len() ==> fu[k].0 == f[k].0
        }),
    decreases f.len() - i,
{
    if 0 <= i < f.len() && f[i].0 != n {
        lemma_frame_update_lookup(f, n, v, i + 1);
    }
}

/// Assignment scanning from frame `j` outward updates the innermost binding
/// it finds: afterwards the same scan sees the new value, every frame keeps
/// its length and its names, and frames above the updated one are untouched.
proof fn lemma_assign_then_lookup_from(env: EnvV, n: Seq<char>, v: ValueV, j: int)
    requires
        env_assign_from(env, n, v, j) is Ok,
    ensures
        ({
            let e2 = env_assign_from(env, n, v, j)->Ok_0;
            e2.len() == env.len() && env_lookup_from(e2, n, j) == Option::Some(v) && forall|k: int|
                j < k < env.len() ==> e2[k] == env[k]
        }),
    decreases j + 1,
{
    if 0 <= j < env.len() {
        if frame_contains(env[j], n) {
            lemma_frame_update_lookup(env[j], n, v, 0);
        } else {
            lemma_assign_then_lookup_from(env, n, v, j - 1);
        }
    }
}

/// Assignment to a name that an enclosing frame binds replaces exactly that
/// binding: the new value is what lookup sees afterwards. Together with
/// `lemma_shadow_then_unshadow`, the change survives the exit from any
/// nested block, since exiting only drops the block's own frame.
pub proof fn lemma_assign_then_lookup(env: EnvV, n: Seq<char>, v: ValueV)
    requires
        env_assign(env, n, v) is Ok,
    ensures
        env_lookup(env_assign(env, n, v)->Ok_0, n) == Option::Some(v),
        env_assign(env, n, v)->Ok_0.len() == env.len(),
{
    lemma_assign_then_lookup_from(env, n, v, env.len() - 1);
}

/// A call whose argument count differs from the parameter count fails with
/// `ArityMismatch` — whatever the argument values are, whatever the body
/// says, before anything of the body runs.
pub proof fn lemma_arity_mismatch(
    fuel: nat,
    params: Seq<Seq<char>>,
    body: Seq<StmtV>,
    args: Seq<ValueV>,
    selfname: Option<Seq<char>>,
)
    requires
        args.len() != params.len(),
    ensures
        eval_call_s(fuel, params, body, args, selfname) == CallOutV::Error(
            ErrV::ArityMismatch(params.len(), args.len()),
        ),
{
}

/// An early return in flight passes through a statement list unchanged: if
/// the statement at position `i` yields `Returning`, the statements after it
/// are never evaluated and the list yields that same return.
pub proof fn lemma_return_short_circuits(
    fuel: nat,
    env: EnvV,
    ss: Seq<StmtV>,
    i: int,
    last: Option<ValueV>,
    v: ValueV,
)
    requires
        0 <= i < ss.len(),
        eval_stmt_s(fuel, env, ss[i]).1 == StmtOutV::Returning(v),
    ensures
        eval_stmts_s(fuel, env, ss, i, last) == (
            eval_stmt_s(fuel, env, ss[i]).0,
            ExprOutV::Returning(v),
        ),
{
}

/// A run of statements that only bind and assign leaves no value behind: if
/// it completes with a value at all, that value is unit.
pub proof fn lemma_bindings_yield_unit(fuel: nat, env: EnvV, ss: Seq<StmtV>, i: int)
    requires
        forall|j: int| i <= j < ss.len() ==> (ss[j] is Let || ss[j] is Assign),
    ensures
        forall|v: ValueV|
            eval_stmts_s(fuel, env, ss, i, Option::None).1 == ExprOutV::Value(v) ==> v
                == ValueV::Unit,
    decreases ss.len() - i,
{
    if 0 <= i < ss.len() {
        let (env1, out) = eval_stmt_s(fuel, env, ss[i]);
        if out is Continue {
            lemma_bindings_yield_unit(fuel, env1, ss, i + 1);
        }
    }
}

/// A statement list whose last statement is an expression statement is worth
/// that expression's value: when the last statement yields `Continue(Some
/// v)`, the whole list yields `v`, whatever came before it.
pub proof fn lemma_trailing_expression_value(
    fuel: nat,
    env: EnvV,
    ss: Seq<StmtV>,
    last: Option<ValueV>,
    v: ValueV,
)
    requires
        ss.len() > 0,
        eval_stmt_s(fuel, env, ss[ss.len() - 1]).1 == StmtOutV::Continue(Option::Some(v)),
    ensures
        eval_stmts_s(fuel, env, ss, ss.len() - 1, last) == (
            eval_stmt_s(fuel, env, ss[ss.len() - 1]).0,
            ExprOutV::Value(v),
        ),
{
    reveal_with_fuel(eval_stmts_s, 2);
}

/// Two function values never compare, under any of the six comparison
/// operators: the outcome is always the `UncomparableFunction` error, never
/// a silent `true` or `false`.
pub proof fn lemma_functions_never_compare(op: Infix, a: ValueV, b: ValueV)
    requires
        a matches ValueV::Fn { .. },
        b matches ValueV::Fn { .. },
    ensures
        compare_v(op, a, b) == Result::<ValueV, ErrV>::Err(ErrV::UncomparableFunction),
{
}

} // verus!
