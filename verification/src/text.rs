//! Plain-text rendering of the tree, fully parenthesized: what the tests
//! and the front end print.

use vstd::prelude::*;

use crate::ast::{Expr, Infix, Literal, Prefix, Statement};

verus! {

/// The source spelling of a binary operator.
fn infix_text(op: &Infix) -> &'static str {
    match op {
        Infix::Add => "+",
        Infix::Sub => "-",
        Infix::Mul => "*",
        Infix::Div => "/",
        Infix::Eql => "==",
        Infix::Neq => "!=",
        Infix::Lt => "<",
        Infix::Lte => "<=",
        Infix::Gt => ">",
        Infix::Gte => ">=",
    }
}

/// The decimal spelling of a 64-bit integer.
pub fn int_text(n: i64) -> String {
    let mut s = String::new();
    if n == 0 {
        s.append("0");
        return s;
    }
    if n < 0 {
        s.append("-");
    }
    let mut m: u64 = if n < 0 {
        ((-(n + 1)) as u64) + 1
    } else {
        n as u64
    };
    let mut digits: Vec<u64> = Vec::new();
    while m > 0
        decreases m,
    {
        digits.push(m % 10);
        proof {
            vstd::arithmetic::div_mod::lemma_div_decreases(m as int, 10);
        }
        m = m / 10;
    }
    let mut k = digits.len();
    while k > 0
        invariant
            k <= digits@.len(),
        decreases k,
    {
        k = k - 1;
        let d = digits[k];
        match d {
            0 => s.append("0"),
            1 => s.append("1"),
            2 => s.append("2"),
            3 => s.append("3"),
            4 => s.append("4"),
            5 => s.append("5"),
            6 => s.append("6"),
            7 => s.append("7"),
            8 => s.append("8"),
            _ => s.append("9"),
        }
    }
    s
}

/// Parameter names joined by commas.
fn params_text(params: &Vec<String>) -> String {
    let mut s = String::new();
    let n = params.len();
    let mut i: usize = 0;
    while i < n
        invariant
            n == params@.len(),
            i <= n,
        decreases n - i,
    {
        if i > 0 {
            s.append(", ");
        }
        s.append(params[i].as_str());
        i = i + 1;
    }
    s
}

/// Argument expressions joined by commas.
fn exprs_comma_text(es: &Vec<Expr>) -> String
    decreases es,
{
    let mut s = String::new();
    let n = es.len();
    let mut i: usize = 0;
    while i < n
        invariant
            n == es@.len(),
            i <= n,
        decreases n - i,
    {
        if i > 0 {
            s.append(", ");
        }
        let part = es[i].to_text();
        s.append(part.as_str());
        i = i + 1;
    }
    s
}

/// Statements rendered in sequence, each closed by `"; "`.
fn stmts_semi_text(ss: &Vec<Statement>) -> String
    decreases ss,
{
    let mut s = String::new();
    let n = ss.len();
    let mut i: usize = 0;
    while i < n
        invariant
            n == ss@.len(),
            i <= n,
        decreases n - i,
    {
        let part = ss[i].to_text();
        s.append(part.as_str());
        s.append("; ");
        i = i + 1;
    }
    s
}

/// A statement list rendered as a bracketed, comma-separated list.
pub fn block_text(ss: &Vec<Statement>) -> String
    decreases ss,
{
    let mut s = String::new();
    s.append("[");
    let n = ss.len();
    let mut i: usize = 0;
    while i < n
        invariant
            n == ss@.len(),
            i <= n,
        decreases n - i,
    {
        if i > 0 {
            s.append(", ");
        }
        let part = ss[i].to_text();
        s.append(part.as_str());
        i = i + 1;
    }
    s.append("]");
    s
}

impl Expr {
    /// This expression as fully parenthesized source-like text.
    pub fn to_text(&self) -> String
        decreases self,
    {
        let mut s = String::new();
        match self {
            Expr::Ident(n) => {
                s.append(n.as_str());
            },
            Expr::Literal(Literal::Int(n)) => {
                let t = int_text(*n);
                s.append(t.as_str());
            },
            Expr::Literal(Literal::Bool(b)) => {
                if *b {
                    s.append("true");
                } else {
                    s.append("false");
                }
            },
            Expr::UnExpr(op, e) => {
                s.append("(");
                match op {
                    Prefix::Minus => s.append("-"),
                    Prefix::Not => s.append("!"),
                }
                let t = e.to_text();
                s.append(t.as_str());
                s.append(")");
            },
            Expr::BinExpr(l, op, r) => {
                s.append("(");
                let tl = l.to_text();
                s.append(tl.as_str());
                s.append(" ");
                s.append(infix_text(op));
                s.append(" ");
                let tr = r.to_text();
                s.append(tr.as_str());
                s.append(")");
            },
            Expr::Function { params, body } => {
                s.append("fn(");
                let tp = params_text(params);
                s.append(tp.as_str());
                s.append(") { ");
                let tb = stmts_semi_text(body);
                s.append(tb.as_str());
                s.append("}");
            },
            Expr::Call { func, args } => {
                let tf = func.to_text();
                s.append(tf.as_str());
                s.append("(");
                let ta = exprs_comma_text(args);
                s.append(ta.as_str());
                s.append(")");
            },
            Expr::If { cond, then, els } => {
                s.append("if ");
                let tc = cond.to_text();
                s.append(tc.as_str());
                s.append(" { ");
                let tt = stmts_semi_text(then);
                s.append(tt.as_str());
                s.append("}");
                match els {
                    Some(b) => {
                        s.append(" else { ");
                        let te = stmts_semi_text(b);
                        s.append(te.as_str());
                        s.append("}");
                    },
                    None => {},
                }
            },
        }
        s
    }
}

impl Statement {
    /// This statement as source-like text.
    pub fn to_text(&self) -> String
        decreases self,
    {
        let mut s = String::new();
        match self {
            Statement::Let { name, value } => {
                s.append("let ");
                s.append(name.as_str());
                s.append(" = ");
                let t = value.to_text();
                s.append(t.as_str());
            },
            Statement::Assign { name, value } => {
                s.append("set ");
                s.append(name.as_str());
                s.append(" = ");
                let t = value.to_text();
                s.append(t.as_str());
            },
            Statement::Expr(e) => {
                s.append("expr ");
                let t = e.to_text();
                s.append(t.as_str());
            },
            Statement::Return(e) => {
                s.append("return ");
                let t = e.to_text();
                s.append(t.as_str());
            },
        }
        s
    }
}

} // verus!
