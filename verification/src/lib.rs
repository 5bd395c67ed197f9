//! A tree-walking interpreter for a small imperative scripting language:
//! variables, arithmetic with string overloads, ternary and postfix
//! operators, blocks with lexical scoping, `if`/`while`/`loop` with
//! `break` and `continue`, and functions with closures. The scanner turns
//! source text into tokens, the recursive-descent parser builds the syntax
//! tree and recovers at statement boundaries, and the evaluator executes
//! it over a scope arena; parser and evaluator return exactly what the
//! grammar in `grammar` and the big-step semantics in `semantics` say.
//! Numbers are IEEE-754 bit patterns computed through a deterministic
//! soft-float core.
use vstd::prelude::*;

pub mod ast;
pub mod binary_ops;
pub mod environment;
pub mod error;
pub mod grammar;
pub mod interpreter;
pub mod laws;
pub mod lexer;
pub mod numeric;
pub mod parser;
pub mod printer;
pub mod semantics;
pub mod strings;
pub mod token;
pub mod value;

verus! {

} // verus!
