//! The statement/expression tree that the evaluator walks, together with its
//! mathematical view: each node is mirrored by a ghost node whose collections
//! are `Seq` and whose names are `Seq<char>`.

use vstd::prelude::*;

verus! {

/// A literal value appearing in the source.
#[derive(Clone, Copy, Debug, PartialEq, Eq, Structural)]
pub enum Literal {
    Int(i64),
    Bool(bool),
}

/// A unary operator.
#[derive(Clone, Copy, Debug, PartialEq, Eq, Structural)]
pub enum Prefix {
    Minus,
    Not,
}

/// A binary operator.
#[derive(Clone, Copy, Debug, PartialEq, Eq, Structural)]
pub enum Infix {
    Add,
    Sub,
    Mul,
    Div,
    Eql,
    Neq,
    Lt,
    Lte,
    Gt,
    Gte,
}

/// An expression tree node.
#[derive(Debug)]
pub enum Expr {
    Ident(String),
    Literal(Literal),
    UnExpr(Prefix, Box<Expr>),
    BinExpr(Box<Expr>, Infix, Box<Expr>),
    Function { params: Vec<String>, body: Vec<Statement> },
    Call { func: Box<Expr>, args: Vec<Expr> },
    If { cond: Box<Expr>, then: Vec<Statement>, els: Option<Vec<Statement>> },
}

/// One statement.
#[derive(Debug)]
pub enum Statement {
    Let { name: String, value: Expr },
    Assign { name: String, value: Expr },
    Expr(Expr),
    Return(Expr),
}

/// A block is an ordered list of statements.
pub type BlockStmt = Vec<Statement>;

/// A whole source file: its statements in order.
#[derive(Debug)]
pub struct Program(pub Vec<Statement>);

/// Ghost mirror of `Expr`.
pub enum ExprV {
    Ident(Seq<char>),
    Literal(Literal),
    UnExpr(Prefix, Box<ExprV>),
    BinExpr(Box<ExprV>, Infix, Box<ExprV>),
    Function { params: Seq<Seq<char>>, body: Seq<StmtV> },
    Call { func: Box<ExprV>, args: Seq<ExprV> },
    If { cond: Box<ExprV>, then: Seq<StmtV>, els: Option<Seq<StmtV>> },
}

/// Ghost mirror of `Statement`.
pub enum StmtV {
    Let { name: Seq<char>, value: ExprV },
    Assign { name: Seq<char>, value: ExprV },
    Expr(ExprV),
    Return(ExprV),
}

/// Ghost view of a name list.
pub open spec fn strings_dv(ss: Seq<String>) -> Seq<Seq<char>> {
    Seq::new(ss.len(), |i: int| ss[i]@)
}

/// Ghost view of an expression.
pub open spec fn expr_dv(e: Expr) -> ExprV
    decreases e,
{
    match e {
        Expr::Ident(n) => ExprV::Ident(n@),
        Expr::Literal(l) => ExprV::Literal(l),
        Expr::UnExpr(op, e1) => ExprV::UnExpr(op, Box::new(expr_dv(*e1))),
        Expr::BinExpr(l, op, r) => ExprV::BinExpr(Box::new(expr_dv(*l)), op, Box::new(expr_dv(*r))),
        Expr::Function { params, body } => ExprV::Function {
            params: strings_dv(params@),
            body: stmts_dv(body@),
        },
        Expr::Call { func, args } => ExprV::Call {
            func: Box::new(expr_dv(*func)),
            args: exprs_dv(args@),
        },
        Expr::If { cond, then, els } => ExprV::If {
            cond: Box::new(expr_dv(*cond)),
            then: stmts_dv(then@),
            els: match els {
                Option::Some(b) => Option::Some(stmts_dv(b@)),
                Option::None => Option::None,
            },
        },
    }
}

/// Ghost view of an expression list.
pub open spec fn exprs_dv(es: Seq<Expr>) -> Seq<ExprV>
    decreases es,
{
    if es.len() == 0 {
        Seq::empty()
    } else {
        exprs_dv(es.drop_last()).push(expr_dv(es.last()))
    }
}

/// Ghost view of a statement.
pub open spec fn stmt_dv(s: Statement) -> StmtV
    decreases s,
{
    match s {
        Statement::Let { name, value } => StmtV::Let { name: name@, value: expr_dv(value) },
        Statement::Assign { name, value } => StmtV::Assign { name: name@, value: expr_dv(value) },
        Statement::Expr(e) => StmtV::Expr(expr_dv(e)),
        Statement::Return(e) => StmtV::Return(expr_dv(e)),
    }
}

/// Ghost view of a statement list.
pub open spec fn stmts_dv(ss: Seq<Statement>) -> Seq<StmtV>
    decreases ss,
{
    if ss.len() == 0 {
        Seq::empty()
    } else {
        stmts_dv(ss.drop_last()).push(stmt_dv(ss.last()))
    }
}

/// The view of a statement list is element-wise.
pub broadcast proof fn lemma_stmts_dv(ss: Seq<Statement>)
    ensures
        #[trigger] stmts_dv(ss).len() == ss.len(),
        forall|i: int| 0 <= i < ss.len() ==> stmts_dv(ss)[i] == stmt_dv(ss[i]),
    decreases ss.len(),
{
    if ss.len() > 0 {
        lemma_stmts_dv(ss.drop_last());
    }
}

/// The view of an expression list is element-wise.
pub broadcast proof fn lemma_exprs_dv(es: Seq<Expr>)
    ensures
        #[trigger] exprs_dv(es).len() == es.len(),
        forall|i: int| 0 <= i < es.len() ==> exprs_dv(es)[i] == expr_dv(es[i]),
    decreases es.len(),
{
    if es.len() > 0 {
        lemma_exprs_dv(es.drop_last());
    }
}

/// Copies a list of names.
pub fn copy_strings(v: &Vec<String>) -> (r: Vec<String>)
    ensures
        strings_dv(r@) == strings_dv(v@),
{
    let mut r: Vec<String> = Vec::new();
    let n = v.len();
    for i in 0..n
        invariant
            n == v@.len(),
            r@.len() == i,
            forall|k: int| 0 <= k < i ==> r@[k]@ == v@[k]@,
    {
        r.push(v[i].clone());
    }
    proof {
        assert(strings_dv(r@) =~= strings_dv(v@));
    }
    r
}

impl Expr {
    /// Copies this expression tree; the copy has the same view.
    pub fn deep_copy(&self) -> (r: Expr)
        ensures
            expr_dv(r) == expr_dv(*self),
        decreases self,
    {
        match self {
            Expr::Ident(n) => Expr::Ident(n.clone()),
            Expr::Literal(l) => Expr::Literal(*l),
            Expr::UnExpr(op, e) => Expr::UnExpr(*op, Box::new(e.deep_copy())),
            Expr::BinExpr(l, op, r2) => Expr::BinExpr(
                Box::new(l.deep_copy()),
                *op,
                Box::new(r2.deep_copy()),
            ),
            Expr::Function { params, body } => Expr::Function {
                params: copy_strings(params),
                body: copy_stmts(body),
            },
            Expr::Call { func, args } => Expr::Call {
                func: Box::new(func.deep_copy()),
                args: copy_exprs(args),
            },
            Expr::If { cond, then, els } => Expr::If {
                cond: Box::new(cond.deep_copy()),
                then: copy_stmts(then),
                els: match els {
                    Option::Some(b) => Option::Some(copy_stmts(b)),
                    Option::None => Option::None,
                },
            },
        }
    }
}

impl Statement {
    /// Copies this statement; the copy has the same view.
    pub fn deep_copy(&self) -> (r: Statement)
        ensures
            stmt_dv(r) == stmt_dv(*self),
        decreases self,
    {
        match self {
            Statement::Let { name, value } => Statement::Let {
                name: name.clone(),
                value: value.deep_copy(),
            },
            Statement::Assign { name, value } => Statement::Assign {
                name: name.clone(),
                value: value.deep_copy(),
            },
            Statement::Expr(e) => Statement::Expr(e.deep_copy()),
            Statement::Return(e) => Statement::Return(e.deep_copy()),
        }
    }
}

/// Copies a statement list; the copy has the same view.
pub fn copy_stmts(v: &Vec<Statement>) -> (r: Vec<Statement>)
    ensures
        stmts_dv(r@) == stmts_dv(v@),
    decreases v,
{
    let mut r: Vec<Statement> = Vec::new();
    let n = v.len();
    for i in 0..n
        invariant
            n == v@.len(),
            r@.len() == i,
            forall|k: int| 0 <= k < i ==> stmt_dv(r@[k]) == stmt_dv(v@[k]),
    {
        r.push(v[i].deep_copy());
    }
    proof {
        lemma_stmts_dv(r@);
        lemma_stmts_dv(v@);
        assert(stmts_dv(r@) =~= stmts_dv(v@));
    }
    r
}

/// Copies an expression list; the copy has the same view.
pub fn copy_exprs(v: &Vec<Expr>) -> (r: Vec<Expr>)
    ensures
        exprs_dv(r@) == exprs_dv(v@),
    decreases v,
{
    let mut r: Vec<Expr> = Vec::new();
    let n = v.len();
    for i in 0..n
        invariant
            n == v@.len(),
            r@.len() == i,
            forall|k: int| 0 <= k < i ==> expr_dv(r@[k]) == expr_dv(v@[k]),
    {
        r.push(v[i].deep_copy());
    }
    proof {
        lemma_exprs_dv(r@);
        lemma_exprs_dv(v@);
        assert(exprs_dv(r@) =~= exprs_dv(v@));
    }
    r
}

} // verus!
