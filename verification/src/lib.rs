//! A small interpreted language: an expression/statement tree over integers,
//! booleans, unit and first-class function values, evaluated against a stack
//! of lexical binding frames, with its tokenizer and parser.

use vstd::prelude::*;

pub mod ast;
pub mod env;
pub mod eval;
pub mod laws;
pub mod lexer;
pub mod parser;
pub mod text;
pub mod value;

use crate::ast::Program;
use crate::eval::{eval_func, CallOutcome};
use crate::parser::{ParserError, SirenParser};
use crate::value::{RuntimeError, Value};

verus! {

/// Why running a source text failed: it did not parse, a runtime error
/// stopped it, or the step budget ran out.
#[derive(Debug)]
pub enum SirenError {
    Parse(ParserError),
    Runtime(RuntimeError),
    OutOfFuel,
}

/// Parses a whole source text and evaluates its statements in order against
/// one fresh store, with the given step budget for function calls. The
/// result is the value of an executed `return`, else of the last expression
/// statement, else unit.
pub fn run_file(input: &str, fuel: u64) -> Result<Value, SirenError> {
    let Program(stmts) = match SirenParser::parse_file(input) {
        Ok(p) => p,
        Err(msg) => {
            return Err(SirenError::Parse(ParserError::Default(msg)));
        },
    };
    let params: Vec<String> = Vec::new();
    match eval_func(&params, Vec::new(), &stmts, None, fuel) {
        CallOutcome::Value(v) => Ok(v),
        CallOutcome::Error(e) => Err(SirenError::Runtime(e)),
        CallOutcome::OutOfFuel => Err(SirenError::OutOfFuel),
    }
}

} // verus!
