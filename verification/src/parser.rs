//! The parser: a precedence-climbing (Pratt) expression parser over the
//! token stream, and the statement and program grammar around it.
//!
//! A block may end in a trailing expression statement without a semicolon;
//! the parser records it as an explicit `return`, which is how a block's
//! last expression becomes its value.

use vstd::prelude::*;

use crate::ast::{BlockStmt, Expr, Infix, Literal, Prefix, Program, Statement};
use crate::lexer::{lexer, Token};

verus! {

/// A parse failure, with what the parser can say about it.
#[derive(Debug)]
pub enum ParserError {
    Default(String),
}

/// The operator-precedence table the expression parser climbs: lowest binds
/// loosest. Postfix call and index bind tightest.
pub struct PrattParser {
    pub equals_prec: u8,
    pub compare_prec: u8,
    pub sum_prec: u8,
    pub product_prec: u8,
    pub call_prec: u8,
    pub index_prec: u8,
}

/// Builds the precedence table of this grammar: equality under comparison,
/// comparison under `+ -`, `+ -` under `* /`, and call and index above all.
pub fn build_pratt_parser() -> (p: PrattParser)
    ensures
        p.equals_prec == 1,
        p.compare_prec == 2,
        p.sum_prec == 3,
        p.product_prec == 4,
        p.call_prec == 5,
        p.index_prec == 6,
        p.equals_prec > 0,
{
    PrattParser {
        equals_prec: 1,
        compare_prec: 2,
        sum_prec: 3,
        product_prec: 4,
        call_prec: 5,
        index_prec: 6,
    }
}

impl PrattParser {
    /// The binding power of the token seen after a complete expression, and
    /// the operator it stands for; zero for a token that ends the
    /// expression, and no operator for the postfix forms.
    pub fn infix_op(&self, tok: &Token) -> (r: (u8, Option<Infix>)) {
        match tok {
            Token::Add => (self.sum_prec, Some(Infix::Add)),
            Token::Sub => (self.sum_prec, Some(Infix::Sub)),
            Token::Mul => (self.product_prec, Some(Infix::Mul)),
            Token::Div => (self.product_prec, Some(Infix::Div)),
            Token::Equal => (self.equals_prec, Some(Infix::Eql)),
            Token::NotEqual => (self.equals_prec, Some(Infix::Neq)),
            Token::Less => (self.compare_prec, Some(Infix::Lt)),
            Token::LessEqual => (self.compare_prec, Some(Infix::Lte)),
            Token::Greater => (self.compare_prec, Some(Infix::Gt)),
            Token::GreaterEqual => (self.compare_prec, Some(Infix::Gte)),
            Token::LParen => (self.call_prec, None),
            Token::LBracket => (self.index_prec, None),
            _ => (0, None),
        }
    }
}

/// A fresh "there is nothing here to parse" failure.
fn err_unexpected() -> ParserError {
    ParserError::Default("unexpected token".to_string())
}

/// Parses one integer or boolean literal.
pub fn literal(toks: &Vec<Token>, pos: usize) -> (r: Result<(Expr, usize), ParserError>)
    requires
        pos <= toks@.len(),
    ensures
        match r {
            Result::Ok(t) => pos < t.1 <= toks@.len(),
            Result::Err(_) => true,
        },
    decreases toks@.len() - pos, 13int,
{
    if pos >= toks.len() {
        return Err(err_unexpected());
    }
    match &toks[pos] {
        Token::Int(n) => Ok((Expr::Literal(Literal::Int(*n)), pos + 1)),
        Token::Bool(b) => Ok((Expr::Literal(Literal::Bool(*b)), pos + 1)),
        _ => Err(err_unexpected()),
    }
}

/// Parses an atom: a literal, a name, a prefixed atom, a parenthesized
/// expression, a function literal, or an `if`.
fn atom_expr(toks: &Vec<Token>, pos: usize, pratt: &PrattParser) -> (r: Result<
    (Expr, usize),
    ParserError,
>)
    requires
        pos <= toks@.len(),
    ensures
        match r {
            Result::Ok(t) => pos < t.1 <= toks@.len(),
            Result::Err(_) => true,
        },
    decreases toks@.len() - pos, 14int,
{
    if pos >= toks.len() {
        return Err(err_unexpected());
    }
    match &toks[pos] {
        Token::Int(n) => Ok((Expr::Literal(Literal::Int(*n)), pos + 1)),
        Token::Bool(b) => Ok((Expr::Literal(Literal::Bool(*b)), pos + 1)),
        Token::Ident(s) => Ok((Expr::Ident(s.clone()), pos + 1)),
        Token::Sub => {
            let (operand, p) = match atom_expr(toks, pos + 1, pratt) {
                Ok(t) => t,
                Err(e) => {
                    return Err(e);
                },
            };
            Ok((Expr::UnExpr(Prefix::Minus, Box::new(operand)), p))
        },
        Token::Not => {
            let (operand, p) = match atom_expr(toks, pos + 1, pratt) {
                Ok(t) => t,
                Err(e) => {
                    return Err(e);
                },
            };
            Ok((Expr::UnExpr(Prefix::Not, Box::new(operand)), p))
        },
        Token::LParen => {
            let (inner, p) = match expr(toks, pos + 1, pratt) {
                Ok(t) => t,
                Err(e) => {
                    return Err(e);
                },
            };
            if p < toks.len() && matches!(&toks[p], Token::RParen) {
                Ok((inner, p + 1))
            } else {
                Err(ParserError::Default("expected ')'".to_string()))
            }
        },
        Token::Fn => fn_expr(toks, pos, pratt),
        Token::If => if_expr(toks, pos, pratt),
        _ => Err(err_unexpected()),
    }
}

/// Parses a comma-separated argument list, at least one expression long.
fn parse_exprs(toks: &Vec<Token>, pos: usize, pratt: &PrattParser) -> (r: Result<
    (Vec<Expr>, usize),
    ParserError,
>)
    requires
        pos <= toks@.len(),
    ensures
        match r {
            Result::Ok(t) => pos < t.1 <= toks@.len(),
            Result::Err(_) => true,
        },
    decreases toks@.len() - pos, 17int,
{
    let (first, mut p) = match expr(toks, pos, pratt) {
        Ok(t) => t,
        Err(e) => {
            return Err(e);
        },
    };
    let mut args: Vec<Expr> = Vec::new();
    args.push(first);
    while p < toks.len() && matches!(&toks[p], Token::Comma)
        invariant
            pos < p <= toks@.len(),
        decreases toks@.len() - p,
    {
        let (next, p2) = match expr(toks, p + 1, pratt) {
            Ok(t) => t,
            Err(e) => {
                return Err(e);
            },
        };
        args.push(next);
        p = p2;
    }
    Ok((args, p))
}

/// Climbs operators above `prec`: infix operators combine left to right at
/// equal power, and a `(` after a complete expression is a call.
fn pratt_expr(toks: &Vec<Token>, pos: usize, prec: u8, pratt: &PrattParser) -> (r: Result<
    (Expr, usize),
    ParserError,
>)
    requires
        pos <= toks@.len(),
    ensures
        match r {
            Result::Ok(t) => pos < t.1 <= toks@.len(),
            Result::Err(_) => true,
        },
    decreases toks@.len() - pos, 15int,
{
    let (mut left, mut p) = match atom_expr(toks, pos, pratt) {
        Ok(t) => t,
        Err(e) => {
            return Err(e);
        },
    };
    while p < toks.len()
        invariant
            pos < p <= toks@.len(),
        decreases toks@.len() - p,
    {
        let (op_prec, op) = pratt.infix_op(&toks[p]);
        if op_prec <= prec {
            break ;
        }
        match &toks[p] {
            Token::LParen => {
                // a call: parse the argument list
                let (args, p2) = if p + 1 < toks.len() && matches!(&toks[p + 1], Token::RParen) {
                    (Vec::new(), p + 2)
                } else {
                    let (args, p2) = match parse_exprs(toks, p + 1, pratt) {
                        Ok(t) => t,
                        Err(e) => {
                            return Err(e);
                        },
                    };
                    if p2 < toks.len() && matches!(&toks[p2], Token::RParen) {
                        (args, p2 + 1)
                    } else {
                        return Err(ParserError::Default("expected ')'".to_string()));
                    }
                };
                left = Expr::Call { func: Box::new(left), args };
                p = p2;
            },
            Token::LBracket => {
                return Err(ParserError::Default("indexing is not supported".to_string()));
            },
            _ => {
                match op {
                    Some(o) => {
                        let (right, p2) = match pratt_expr(toks, p + 1, op_prec, pratt) {
                            Ok(t) => t,
                            Err(e) => {
                                return Err(e);
                            },
                        };
                        left = Expr::BinExpr(Box::new(left), o, Box::new(right));
                        p = p2;
                    },
                    None => {
                        break ;
                    },
                }
            },
        }
    }
    Ok((left, p))
}

/// Parses one whole expression.
pub fn expr(toks: &Vec<Token>, pos: usize, pratt: &PrattParser) -> (r: Result<
    (Expr, usize),
    ParserError,
>)
    requires
        pos <= toks@.len(),
    ensures
        match r {
            Result::Ok(t) => pos < t.1 <= toks@.len(),
            Result::Err(_) => true,
        },
    decreases toks@.len() - pos, 16int,
{
    pratt_expr(toks, pos, 0, pratt)
}

/// Parses a function literal: `fn` `(` parameter names `)` and a block.
pub fn fn_expr(toks: &Vec<Token>, pos: usize, pratt: &PrattParser) -> (r: Result<
    (Expr, usize),
    ParserError,
>)
    requires
        pos <= toks@.len(),
    ensures
        match r {
            Result::Ok(t) => pos < t.1 <= toks@.len(),
            Result::Err(_) => true,
        },
    decreases toks@.len() - pos, 13int,
{
    if !(pos < toks.len() && matches!(&toks[pos], Token::Fn)) {
        return Err(ParserError::Default("expected 'fn('".to_string()));
    }
    if !(pos + 1 < toks.len() && matches!(&toks[pos + 1], Token::LParen)) {
        return Err(ParserError::Default("expected 'fn('".to_string()));
    }
    let mut params: Vec<String> = Vec::new();
    let mut p = pos + 2;
    if p < toks.len() && matches!(&toks[p], Token::Ident(_)) {
        loop
            invariant
                pos < p <= toks@.len(),
            decreases toks@.len() - p,
        {
            if p >= toks.len() {
                return Err(ParserError::Default("expected a parameter name".to_string()));
            }
            match &toks[p] {
                Token::Ident(s) => {
                    params.push(s.clone());
                },
                _ => {
                    return Err(ParserError::Default("expected a parameter name".to_string()));
                },
            }
            p = p + 1;
            if p < toks.len() && matches!(&toks[p], Token::Comma) {
                p = p + 1;
            } else {
                break ;
            }
        }
    }
    if !(p < toks.len() && matches!(&toks[p], Token::RParen)) {
        return Err(ParserError::Default("expected ')'".to_string()));
    }
    let (body, p2) = match block_stmt(toks, p + 1, pratt) {
        Ok(t) => t,
        Err(e) => {
            return Err(e);
        },
    };
    Ok((Expr::Function { params, body }, p2))
}

/// Parses `if` condition block, with an optional `else` block.
pub fn if_expr(toks: &Vec<Token>, pos: usize, pratt: &PrattParser) -> (r: Result<
    (Expr, usize),
    ParserError,
>)
    requires
        pos <= toks@.len(),
    ensures
        match r {
            Result::Ok(t) => pos < t.1 <= toks@.len(),
            Result::Err(_) => true,
        },
    decreases toks@.len() - pos, 13int,
{
    if !(pos < toks.len() && matches!(&toks[pos], Token::If)) {
        return Err(ParserError::Default("expected 'if'".to_string()));
    }
    let (cond, p) = match expr(toks, pos + 1, pratt) {
        Ok(t) => t,
        Err(e) => {
            return Err(e);
        },
    };
    let (then, p2) = match block_stmt(toks, p, pratt) {
        Ok(t) => t,
        Err(e) => {
            return Err(e);
        },
    };
    if p2 < toks.len() && matches!(&toks[p2], Token::Else) {
        let (els, p3) = match block_stmt(toks, p2 + 1, pratt) {
            Ok(t) => t,
            Err(e) => {
                return Err(e);
            },
        };
        Ok((Expr::If { cond: Box::new(cond), then, els: Some(els) }, p3))
    } else {
        Ok((Expr::If { cond: Box::new(cond), then, els: None }, p2))
    }
}

/// Parses `return` and its expression.
pub fn return_stmt(toks: &Vec<Token>, pos: usize, pratt: &PrattParser) -> (r: Result<
    (Statement, usize),
    ParserError,
>)
    requires
        pos <= toks@.len(),
    ensures
        match r {
            Result::Ok(t) => pos < t.1 <= toks@.len(),
            Result::Err(_) => true,
        },
    decreases toks@.len() - pos, 17int,
{
    if !(pos < toks.len() && matches!(&toks[pos], Token::Return)) {
        return Err(ParserError::Default("expected 'return'".to_string()));
    }
    let (e, p) = match expr(toks, pos + 1, pratt) {
        Ok(t) => t,
        Err(er) => {
            return Err(er);
        },
    };
    Ok((Statement::Return(e), p))
}

/// Parses one statement: `return`, `let`, an assignment, or an expression.
pub fn statement(toks: &Vec<Token>, pos: usize, pratt: &PrattParser) -> (r: Result<
    (Statement, usize),
    ParserError,
>)
    requires
        pos <= toks@.len(),
    ensures
        match r {
            Result::Ok(t) => pos < t.1 <= toks@.len(),
            Result::Err(_) => true,
        },
    decreases toks@.len() - pos, 18int,
{
    if pos >= toks.len() {
        return Err(err_unexpected());
    }
    match &toks[pos] {
        Token::Return => return_stmt(toks, pos, pratt),
        Token::Let => {
            // let name = expr
            if pos + 1 >= toks.len() {
                return Err(ParserError::Default("expected a name after 'let'".to_string()));
            }
            let name = match &toks[pos + 1] {
                Token::Ident(s) => s.clone(),
                _ => {
                    return Err(ParserError::Default("expected a name after 'let'".to_string()));
                },
            };
            if !(pos + 2 < toks.len() && matches!(&toks[pos + 2], Token::Assign)) {
                return Err(ParserError::Default("expected '=' after the name".to_string()));
            }
            let (value, p) = match expr(toks, pos + 3, pratt) {
                Ok(t) => t,
                Err(e) => {
                    return Err(e);
                },
            };
            Ok((Statement::Let { name, value }, p))
        },
        Token::Ident(s) => {
            if pos + 1 < toks.len() && matches!(&toks[pos + 1], Token::Assign) {
                // name = expr
                let (value, p) = match expr(toks, pos + 2, pratt) {
                    Ok(t) => t,
                    Err(e) => {
                        return Err(e);
                    },
                };
                Ok((Statement::Assign { name: s.clone(), value }, p))
            } else {
                let (e, p) = match expr(toks, pos, pratt) {
                    Ok(t) => t,
                    Err(er) => {
                        return Err(er);
                    },
                };
                Ok((Statement::Expr(e), p))
            }
        },
        _ => {
            let (e, p) = match expr(toks, pos, pratt) {
                Ok(t) => t,
                Err(er) => {
                    return Err(er);
                },
            };
            Ok((Statement::Expr(e), p))
        },
    }
}

/// Parses a block: `{` statements `}`. Statements are separated by
/// semicolons; a trailing expression statement without one is recorded as a
/// `return` of that expression, which makes it the block's value.
pub fn block_stmt(toks: &Vec<Token>, pos: usize, pratt: &PrattParser) -> (r: Result<
    (BlockStmt, usize),
    ParserError,
>)
    requires
        pos <= toks@.len(),
    ensures
        match r {
            Result::Ok(t) => pos < t.1 <= toks@.len(),
            Result::Err(_) => true,
        },
    decreases toks@.len() - pos, 19int,
{
    if !(pos < toks.len() && matches!(&toks[pos], Token::LBrace)) {
        return Err(ParserError::Default("expected '{'".to_string()));
    }
    let mut stmts: Vec<Statement> = Vec::new();
    let mut p = pos + 1;
    loop
        invariant
            pos < p <= toks@.len(),
        decreases toks@.len() - p,
    {
        if p < toks.len() && matches!(&toks[p], Token::RBrace) {
            return Ok((stmts, p + 1));
        }
        if p >= toks.len() {
            return Err(ParserError::Default("expected '}'".to_string()));
        }
        let (st, p1) = match statement(toks, p, pratt) {
            Ok(t) => t,
            Err(e) => {
                return Err(e);
            },
        };
        if p1 < toks.len() && matches!(&toks[p1], Token::Semicolon) {
            stmts.push(st);
            p = p1 + 1;
        } else if p1 < toks.len() && matches!(&toks[p1], Token::RBrace) {
            // a trailing statement: its expression is the block's value
            match st {
                Statement::Expr(e) => {
                    stmts.push(Statement::Return(e));
                },
                _ => {},
            }
            return Ok((stmts, p1 + 1));
        } else {
            return Err(ParserError::Default("expected ';' or '}'".to_string()));
        }
    }
}

/// Parses a program: statements each terminated by a semicolon, as many as
/// the tokens allow.
pub fn program(toks: &Vec<Token>, pos: usize, pratt: &PrattParser) -> (r: Result<
    (Program, usize),
    ParserError,
>)
    requires
        pos <= toks@.len(),
    ensures
        match r {
            Result::Ok(t) => pos <= t.1 <= toks@.len(),
            Result::Err(_) => true,
        },
    decreases toks@.len() - pos, 20int,
{
    let mut stmts: Vec<Statement> = Vec::new();
    let mut p = pos;
    loop
        invariant
            pos <= p <= toks@.len(),
        decreases toks@.len() - p,
    {
        if p >= toks.len() {
            return Ok((Program(stmts), p));
        }
        let parsed = match statement(toks, p, pratt) {
            Ok(t) => t,
            Err(_) => {
                return Ok((Program(stmts), p));
            },
        };
        if parsed.1 < toks.len() && matches!(&toks[parsed.1], Token::Semicolon) {
            stmts.push(parsed.0);
            p = parsed.1 + 1;
        } else {
            return Ok((Program(stmts), p));
        }
    }
}

/// The front door of the parser: whole files and single lines.
pub struct SirenParser;

impl SirenParser {
    /// Tokenizes and parses a whole source text; every token must be
    /// consumed.
    pub fn parse_file(input: &str) -> Result<Program, String> {
        let toks = match lexer(input) {
            Ok(t) => t,
            Err(ParserError::Default(msg)) => {
                return Err(msg);
            },
        };
        let pratt = build_pratt_parser();
        match program(&toks, 0, &pratt) {
            Ok((prog, p)) => {
                if p == toks.len() {
                    Ok(prog)
                } else {
                    Err("there is something left to parse".to_string())
                }
            },
            Err(ParserError::Default(msg)) => Err(msg),
        }
    }

    /// Tokenizes and parses one statement; every token must be consumed.
    pub fn parse_line(input: &str) -> Result<Statement, String> {
        let toks = match lexer(input) {
            Ok(t) => t,
            Err(ParserError::Default(msg)) => {
                return Err(msg);
            },
        };
        let pratt = build_pratt_parser();
        match statement(&toks, 0, &pratt) {
            Ok((st, p)) => {
                if p == toks.len() {
                    Ok(st)
                } else {
                    Err("there is something left to parse".to_string())
                }
            },
            Err(ParserError::Default(msg)) => Err(msg),
        }
    }
}

} // verus!
