//! Runtime values. A `Literal` is both the payload of a literal token or
//! expression and the value the evaluator computes with: a number (an
//! IEEE-754 bit pattern), a string, a boolean, null, or a function.
use vstd::prelude::*;

use crate::ast::FunctionStmt;
use crate::numeric::is_zero_bits;
use std::rc::Rc;

verus! {

/// The slot for a host-provided clock function. Reading the host's clock
/// is an effect the verified semantics does not model, so calling this
/// native within the library yields the number zero; an embedding that
/// needs real time must take it from the host around the interpreter.
#[derive(Debug)]
pub struct NativeClock;

impl NativeClock {
    /// The clock takes no arguments.
    pub fn arity(&self) -> (r: usize)
        ensures
            r == 0,
    {
        0
    }

    /// The callable value that runs this native function.
    pub fn into_callable(self) -> (r: Callable)
        ensures
            r.arity == 0,
            r.kind is Native,
    {
        Callable { arity: 0, kind: CallableKind::Native }
    }
}

/// A function defined by the program: its declaration and the scope it was
/// defined in, which its body closes over.
#[derive(Debug)]
pub struct ViskumFunction {
    pub declaration: Rc<FunctionStmt>,
    pub closure: usize,
}

impl ViskumFunction {
    pub fn new(declaration: Rc<FunctionStmt>, closure: usize) -> (r: ViskumFunction)
        ensures
            r == (ViskumFunction { declaration, closure }),
    {
        ViskumFunction { declaration, closure }
    }
}

/// What a callable value runs as: the native clock or a program function.
#[derive(Debug)]
pub enum CallableKind {
    Native,
    User(ViskumFunction),
}

/// A callable value: its arity and what it runs as.
#[derive(Debug)]
pub struct Callable {
    pub arity: usize,
    pub kind: CallableKind,
}

/// Ghost image of what a callable runs as.
pub enum SpecCallKind {
    Native,
    User { decl: FunctionStmt, closure: int },
}

/// Ghost image of a callable value.
pub struct SpecCallable {
    pub arity: int,
    pub kind: SpecCallKind,
}

/// Ghost image of a runtime value.
pub enum SpecVal {
    Num(u64),
    Str(Seq<char>),
    Bool(bool),
    Null,
    Func(SpecCallable),
}

/// A runtime value, and the payload of a literal token or expression.
#[derive(Debug)]
pub enum Literal {
    Num(u64),
    Str(String),
    Bool(bool),
    Null,
    Func(Callable),
}

impl Callable {
    /// Ghost image of this callable.
    pub open spec fn model(&self) -> SpecCallable {
        SpecCallable {
            arity: self.arity as int,
            kind: match self.kind {
                CallableKind::Native => SpecCallKind::Native,
                CallableKind::User(f) => SpecCallKind::User {
                    decl: *f.declaration,
                    closure: f.closure as int,
                },
            },
        }
    }

    /// A copy of this callable that shares the declaration.
    pub fn duplicate(&self) -> (r: Callable)
        ensures
            r == *self,
    {
        Callable {
            arity: self.arity,
            kind: match &self.kind {
                CallableKind::Native => CallableKind::Native,
                CallableKind::User(f) => CallableKind::User(
                    ViskumFunction { declaration: f.declaration.clone(), closure: f.closure },
                ),
            },
        }
    }
}

impl Literal {
    /// Ghost image of this value.
    pub open spec fn model(&self) -> SpecVal {
        match self {
            Literal::Num(b) => SpecVal::Num(*b),
            Literal::Str(s) => SpecVal::Str(s@),
            Literal::Bool(b) => SpecVal::Bool(*b),
            Literal::Null => SpecVal::Null,
            Literal::Func(c) => SpecVal::Func(c.model()),
        }
    }

    /// A copy of this value; a function value shares its declaration.
    pub fn duplicate(&self) -> (r: Literal)
        ensures
            r == *self,
    {
        match self {
            Literal::Num(b) => Literal::Num(*b),
            Literal::Str(s) => Literal::Str(s.clone()),
            Literal::Bool(b) => Literal::Bool(*b),
            Literal::Null => Literal::Null,
            Literal::Func(c) => Literal::Func(c.duplicate()),
        }
    }

    /// The name of this value's type, as diagnostics print it.
    pub open spec fn kind_name(v: SpecVal) -> Seq<char> {
        match v {
            SpecVal::Bool(_) => "bool"@,
            SpecVal::Null => "null"@,
            SpecVal::Num(_) => "number"@,
            SpecVal::Str(_) => "string"@,
            SpecVal::Func(_) => "function"@,
        }
    }

    /// Names this value's type for diagnostics.
    pub fn to_type_string(&self) -> (r: String)
        ensures
            r@ == Literal::kind_name(self.model()),
    {
        match self {
            Literal::Bool(_) => "bool".to_owned(),
            Literal::Null => "null".to_owned(),
            Literal::Num(_) => "number".to_owned(),
            Literal::Str(_) => "string".to_owned(),
            Literal::Func(_) => "function".to_owned(),
        }
    }

    /// The number this value holds, or an error for any other kind of value.
    pub fn to_num(&self) -> (r: Result<u64, ()>)
        ensures
            r == match self.model() {
                SpecVal::Num(b) => Result::<u64, ()>::Ok(b),
                _ => Result::<u64, ()>::Err(()),
            },
    {
        match self {
            Literal::Num(b) => Ok(*b),
            _ => Err(()),
        }
    }
}

impl Literal {
    /// Renders this value in its canonical textual form: numbers in decimal,
    /// strings unquoted, `true`/`false`, `null`, functions as an opaque tag.
    pub fn to_display_string(&self) -> (r: String)
        ensures
            r@ == crate::semantics::display_of(self.model()),
    {
        match self {
            Literal::Num(b) => crate::numeric::num_to_text(*b),
            Literal::Str(s) => s.clone(),
            Literal::Bool(b) => if *b {
                "true".to_owned()
            } else {
                "false".to_owned()
            },
            Literal::Null => "null".to_owned(),
            Literal::Func(_) => "<callable>".to_owned(),
        }
    }
}

/// Truthiness: `false`, `null` and numeric zero are falsy; every other
/// value, the empty string included, is truthy.
pub open spec fn truthy(v: SpecVal) -> bool {
    match v {
        SpecVal::Bool(b) => b,
        SpecVal::Null => false,
        SpecVal::Num(x) => !is_zero_bits(x),
        _ => true,
    }
}

} // verus!
