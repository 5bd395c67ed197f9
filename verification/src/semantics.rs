//! Big-step semantics of the language: one spec function per syntactic
//! form, over a ghost state of scopes, current scope and output lines. The
//! executable evaluator returns exactly what these functions say. A fuel
//! bound is spent once per loop iteration and once per call, so the
//! semantics is total; running out of fuel is a diagnostic.
use vstd::prelude::*;

use crate::ast::{Expr, FunctionStmt, LoopStmt, Stmt, WhileStmt};
use crate::binary_ops::{
    spec_division, spec_exponential, spec_greater, spec_greater_equal, spec_is_equal,
    spec_less, spec_less_equal, spec_minus, spec_multiplication, spec_plus,
};
use crate::environment::{assign_env, assoc_set, lookup, undefined_variable_msg, SpecScope};
use crate::error::{SpecAbort, SpecErr};
use crate::numeric::{add_bits, factorial_result, int_to_bits, neg_bits};
use crate::token::{SpecTok, TokenType};
use crate::value::{truthy, Literal, SpecCallKind, SpecCallable, SpecVal};

verus! {

/// Ghost state of one run: the scope arena, the index of the scope that is
/// current, and the lines printed so far.
pub struct SpecState {
    pub envs: Seq<SpecScope>,
    pub cur: int,
    pub output: Seq<Seq<char>>,
}

/// The text a value prints as.
pub open spec fn display_of(v: SpecVal) -> Seq<char> {
    match v {
        SpecVal::Num(b) => crate::numeric::display_text(b, 1),
        SpecVal::Str(s) => s,
        SpecVal::Bool(b) => if b {
            "true"@
        } else {
            "false"@
        },
        SpecVal::Null => "null"@,
        SpecVal::Func(_) => "<callable>"@,
    }
}

/// A diagnostic pointing at a token, with no abort tag.
pub open spec fn diag_at(msg: Seq<char>, t: SpecTok) -> SpecErr {
    SpecErr { msg, line: t.line, lexeme: t.lexeme, file: "file.vs"@, abort: None }
}

/// The diagnostic for a spent fuel bound.
pub open spec fn fuel_err() -> SpecErr {
    SpecErr {
        msg: "evaluation budget exhausted"@,
        line: 0,
        lexeme: Seq::<char>::empty(),
        file: "file.vs"@,
        abort: None,
    }
}

/// `'-' cannot negate a <kind>`.
pub open spec fn negate_msg(op_lexeme: Seq<char>, v: SpecVal) -> Seq<char> {
    "'"@ + op_lexeme + "' cannot negate a "@ + Literal::kind_name(v)
}

/// `<op> is not defined for <kind>`, for postfix and step operators.
pub open spec fn unary_undefined_msg(op_lexeme: Seq<char>, v: SpecVal) -> Seq<char> {
    op_lexeme + " is not defined for "@ + Literal::kind_name(v)
}

/// `A <kind> is not callable`.
pub open spec fn not_callable_msg(v: SpecVal) -> Seq<char> {
    "A "@ + Literal::kind_name(v) + " is not callable"@
}

/// `Expected <n> arguments but received <m>`.
pub open spec fn arity_msg(expected: nat, actual: nat) -> Seq<char> {
    "Expected "@ + crate::strings::dec_chars(expected) + " arguments but received "@
        + crate::strings::dec_chars(actual)
}

/// The message of the `break` signal, reported where no loop catches it.
pub open spec fn break_msg() -> Seq<char> {
    "Unexpected break statement: Must be inside of a loop"@
}

/// The message of the `continue` signal, reported where no loop catches it.
pub open spec fn continue_msg() -> Seq<char> {
    "Unexpected continue statement: Must be inside of a loop"@
}

/// The message of the `return` signal, reported where no call catches it.
pub open spec fn return_msg() -> Seq<char> {
    "Unexpected return statement: Must be inside of a function"@
}

/// `'!' requires an integral number`.
pub open spec fn factorial_msg() -> Seq<char> {
    "'!' requires an integral number"@
}

/// Evaluates an expression: the state after it and its value or the
/// diagnostic or signal that ended it.
pub open spec fn eval_expr(fuel: nat, e: Expr, st: SpecState) -> (SpecState, Result<
    SpecVal,
    SpecErr,
>)
    decreases fuel, e, 0int,
{
    match e {
        Expr::Literal(l) => (
            st,
            Ok(
                match l.value {
                    Some(v) => v.model(),
                    None => SpecVal::Null,
                },
            ),
        ),
        Expr::Grouping(g) => eval_expr(fuel, *g.expression, st),
        Expr::Variable(v) => (
            st,
            match lookup(st.envs, st.cur, v.token@.lexeme) {
                Some(val) => Ok(val),
                None => Err(diag_at(undefined_variable_msg(v.token@.lexeme), v.token@)),
            },
        ),
        Expr::Binary(b) => {
            let (st1, lr) = eval_expr(fuel, *b.left, st);
            match lr {
                Err(e1) => (st1, Err(e1)),
                Ok(lv) => {
                    let (st2, rr) = eval_expr(fuel, *b.right, st1);
                    match rr {
                        Err(e2) => (st2, Err(e2)),
                        Ok(rv) => (st2, apply_binary(b.operator@.ttype, lv, rv)),
                    }
                },
            }
        },
        Expr::Prefix(p) => {
            let (st1, rr) = eval_expr(fuel, *p.right, st);
            match rr {
                Err(e1) => (st1, Err(e1)),
                Ok(rv) => (
                    st1,
                    match p.operator@.ttype {
                        TokenType::Minus => match rv {
                            SpecVal::Num(x) => Ok(SpecVal::Num(neg_bits(x))),
                            _ => Err(diag_at(negate_msg(p.operator@.lexeme, rv), p.operator@)),
                        },
                        TokenType::Bang => Ok(SpecVal::Bool(!truthy(rv))),
                        _ => Err(
                            diag_at("Invalid prefix: "@ + p.operator@.lexeme, p.operator@),
                        ),
                    },
                ),
            }
        },
        Expr::Postfix(p) => {
            let (st1, lr) = eval_expr(fuel, *p.left, st);
            match lr {
                Err(e1) => (st1, Err(e1)),
                Ok(lv) => (
                    st1,
                    match p.operator@.ttype {
                        TokenType::Factorial => match lv {
                            SpecVal::Num(x) => match factorial_result(x) {
                                Some(b) => Ok(SpecVal::Num(b)),
                                None => Err(diag_at(factorial_msg(), p.operator@)),
                            },
                            _ => Err(
                                diag_at(
                                    unary_undefined_msg(p.operator@.lexeme, lv),
                                    p.operator@,
                                ),
                            ),
                        },
                        _ => Err(
                            diag_at("Invalid postfix: "@ + p.operator@.lexeme, p.operator@),
                        ),
                    },
                ),
            }
        },
        Expr::Ternary(t) => {
            let (st1, cr) = eval_expr(fuel, *t.condition, st);
            match cr {
                Err(e1) => (st1, Err(e1)),
                Ok(cv) => if truthy(cv) {
                    eval_expr(fuel, *t.true_expr, st1)
                } else {
                    eval_expr(fuel, *t.false_expr, st1)
                },
            }
        },
        Expr::Logical(l) => {
            let (st1, lr) = eval_expr(fuel, *l.left, st);
            match lr {
                Err(e1) => (st1, Err(e1)),
                Ok(lv) => match l.operator@.ttype {
                    TokenType::Or => if truthy(lv) {
                        (st1, Ok(lv))
                    } else {
                        eval_expr(fuel, *l.right, st1)
                    },
                    TokenType::And => if truthy(lv) {
                        eval_expr(fuel, *l.right, st1)
                    } else {
                        (st1, Ok(lv))
                    },
                    _ => (
                        st1,
                        Err(
                            diag_at(
                                "Invalid logical operator: "@ + l.operator@.lexeme,
                                l.operator@,
                            ),
                        ),
                    ),
                },
            }
        },
        Expr::Assign(a) => eval_assign(fuel, a.token@, a.assignment_token@, *a.value, st),
        Expr::Call(c) => {
            let (st1, fr) = eval_expr(fuel, *c.callee, st);
            match fr {
                Err(e1) => (st1, Err(e1)),
                Ok(fv) => {
                    let (st2, ar) = eval_exprs(fuel, c.arguments@, st1);
                    match ar {
                        Err(e2) => (st2, Err(e2)),
                        Ok(args) => match fv {
                            SpecVal::Func(f) => if args.len() != f.arity {
                                (
                                    st2,
                                    Err(
                                        diag_at(
                                            arity_msg(
                                                if f.arity >= 0 {
                                                    f.arity as nat
                                                } else {
                                                    0
                                                },
                                                args.len(),
                                            ),
                                            c.paren@,
                                        ),
                                    ),
                                )
                            } else {
                                if fuel == 0 {
                                    (st2, Err(fuel_err()))
                                } else {
                                    match f.kind {
                                        SpecCallKind::Native => (
                                            st2,
                                            Ok(SpecVal::Num(int_to_bits(0))),
                                        ),
                                        SpecCallKind::User { decl, closure } => call_user(
                                            (fuel - 1) as nat,
                                            decl,
                                            closure,
                                            args,
                                            st2,
                                        ),
                                    }
                                }
                            },
                            _ => (st2, Err(diag_at(not_callable_msg(fv), c.paren@))),
                        },
                    }
                },
            }
        },
    }
}

/// The binary operator table, dispatched on the operator's token kind; a
/// kind that is no binary operator yields null, as the evaluator's default
/// arm does.
pub open spec fn apply_binary(op: TokenType, lv: SpecVal, rv: SpecVal) -> Result<
    SpecVal,
    SpecErr,
> {
    match op {
        TokenType::EqualEqual => Ok(SpecVal::Bool(spec_is_equal(lv, rv))),
        TokenType::BangEqual => Ok(SpecVal::Bool(!spec_is_equal(lv, rv))),
        TokenType::Greater => spec_greater(lv, rv),
        TokenType::GreaterEqual => spec_greater_equal(lv, rv),
        TokenType::Less => spec_less(lv, rv),
        TokenType::LessEqual => spec_less_equal(lv, rv),
        TokenType::Minus => spec_minus(lv, rv),
        TokenType::Plus => spec_plus(lv, rv),
        TokenType::Slash => spec_division(lv, rv),
        TokenType::Star => spec_multiplication(lv, rv),
        TokenType::Power => spec_exponential(lv, rv),
        _ => Ok(SpecVal::Null),
    }
}

/// Evaluates an argument list left to right.
pub open spec fn eval_exprs(fuel: nat, es: Seq<Expr>, st: SpecState) -> (SpecState, Result<
    Seq<SpecVal>,
    SpecErr,
>)
    decreases fuel, es, 1int,
{
    if es.len() == 0 {
        (st, Ok(Seq::<SpecVal>::empty()))
    } else {
        let (st1, r0) = eval_expr(fuel, es[0], st);
        match r0 {
            Err(e0) => (st1, Err(e0)),
            Ok(v0) => {
                let (st2, rr) = eval_exprs(fuel, es.skip(1), st1);
                match rr {
                    Err(e1) => (st2, Err(e1)),
                    Ok(vs) => (st2, Ok(seq![v0] + vs)),
                }
            },
        }
    }
}

/// Evaluates an assignment: reads the current value, applies the operator
/// the assignment token names, and writes back through the scope chain.
pub open spec fn eval_assign(
    fuel: nat,
    target: SpecTok,
    assignment: SpecTok,
    value: Expr,
    st: SpecState,
) -> (SpecState, Result<SpecVal, SpecErr>)
    decreases fuel, value, 2int,
{
    match assignment.ttype {
        TokenType::Equal | TokenType::PlusEqual | TokenType::MinusEqual | TokenType::StarEqual
            | TokenType::SlashEqual | TokenType::PowerEqual => {
            match lookup(st.envs, st.cur, target.lexeme) {
                None => (st, Err(diag_at(undefined_variable_msg(target.lexeme), target))),
                Some(left) => {
                    let (st1, rr) = eval_expr(fuel, value, st);
                    match rr {
                        Err(e1) => (st1, Err(e1)),
                        Ok(right) => {
                            let applied = match assignment.ttype {
                                TokenType::Equal => Ok(right),
                                TokenType::PlusEqual => spec_plus(left, right),
                                TokenType::MinusEqual => spec_minus(left, right),
                                TokenType::StarEqual => spec_multiplication(left, right),
                                TokenType::SlashEqual => spec_division(left, right),
                                _ => spec_exponential(left, right),
                            };
                            match applied {
                                Err(e2) => (st1, Err(e2)),
                                Ok(nv) => finish_assign(st1, target, nv),
                            }
                        },
                    }
                },
            }
        },
        TokenType::Increment | TokenType::Decrement => {
            match lookup(st.envs, st.cur, target.lexeme) {
                None => (st, Err(diag_at(undefined_variable_msg(target.lexeme), target))),
                Some(left) => match left {
                    SpecVal::Num(x) => {
                        let adjusted = if assignment.ttype == TokenType::Increment {
                            add_bits(x, int_to_bits(1))
                        } else {
                            add_bits(x, neg_bits(int_to_bits(1)))
                        };
                        finish_assign(st, target, SpecVal::Num(adjusted))
                    },
                    _ => (
                        st,
                        Err(
                            diag_at(unary_undefined_msg(assignment.lexeme, left), assignment),
                        ),
                    ),
                },
            }
        },
        _ => (st, Err(diag_at("Invalid assignment: "@ + assignment.lexeme, assignment))),
    }
}

/// Writes an already-computed value to a name through the scope chain.
pub open spec fn finish_assign(st: SpecState, target: SpecTok, nv: SpecVal) -> (SpecState, Result<
    SpecVal,
    SpecErr,
>) {
    match assign_env(st.envs, st.cur, target.lexeme, nv) {
        Some(envs) => (SpecState { envs, ..st }, Ok(nv)),
        None => (st, Err(diag_at(undefined_variable_msg(target.lexeme), target))),
    }
}

/// Calls a program function with already-evaluated arguments: its body
/// runs in a fresh scope under its captured closure scope, with the
/// parameters bound positionally. A `return` signal gives the call's value;
/// a `break` or `continue` signal escaping the body loses its tag and is
/// reported as the diagnostic it carries; falling through yields null.
/// (The native clock is a stub yielding zero: reading the host's clock is
/// an effect the verified core does not model.)
pub open spec fn call_user(
    fuel: nat,
    decl: FunctionStmt,
    closure: int,
    args: Seq<SpecVal>,
    st: SpecState,
) -> (SpecState, Result<SpecVal, SpecErr>)
    decreases fuel, decl, 3int,
{
    if !(0 <= closure < st.envs.len()) {
        (st, Err(diag_at("Internal error: A function's scope is gone"@, decl.token@)))
    } else {
        let entry = SpecScope {
            vals: bind_params(decl.params@.map(|i: int, t: crate::token::Token| t@.lexeme), args),
            parent: Some(closure),
        };
        let inner = SpecState { envs: st.envs.push(entry), cur: st.envs.len() as int, ..st };
        let (st1, out) = exec_stmts(fuel, decl.body@, inner);
        let back = SpecState { cur: st.cur, ..st1 };
        match out {
            None => (back, Ok(SpecVal::Null)),
            Some(e) => match e.abort {
                Some(SpecAbort::Return(v)) => (back, Ok(v)),
                Some(_) => (back, Err(SpecErr { abort: None, ..e })),
                None => (back, Err(e)),
            },
        }
    }
}

/// The scope of a call entry: each parameter bound positionally to its
/// argument, first to last, ignoring whichever list is longer.
pub open spec fn bind_params(names: Seq<Seq<char>>, args: Seq<SpecVal>) -> Seq<
    (Seq<char>, SpecVal),
> {
    let n = if names.len() <= args.len() {
        names.len() as int
    } else {
        args.len() as int
    };
    bind_eq(names.take(n), args.take(n))
}

/// Binds equally long name and argument lists pairwise, in order.
pub open spec fn bind_eq(names: Seq<Seq<char>>, args: Seq<SpecVal>) -> Seq<(Seq<char>, SpecVal)>
    decreases names.len(),
{
    if names.len() == 0 || args.len() == 0 {
        Seq::empty()
    } else {
        assoc_set(bind_eq(names.drop_last(), args.drop_last()), names.last(), args.last())
    }
}

/// Executes a statement: the state after it, and the diagnostic or signal
/// that ended it, if any.
pub open spec fn exec_stmt(fuel: nat, s: Stmt, st: SpecState) -> (SpecState, Option<SpecErr>)
    decreases fuel, s, 0int,
{
    match s {
        Stmt::Expression(e) => {
            let (st1, r) = eval_expr(fuel, e.expression, st);
            (
                st1,
                match r {
                    Ok(_) => None,
                    Err(er) => Some(er),
                },
            )
        },
        Stmt::Print(p) => {
            let (st1, r) = eval_expr(fuel, p.expression, st);
            match r {
                Ok(v) => (SpecState { output: st1.output.push(display_of(v)), ..st1 }, None),
                Err(er) => (st1, Some(er)),
            }
        },
        Stmt::Let(l) => {
            let (st1, r) = eval_expr(fuel, l.initializer, st);
            match r {
                Err(er) => (st1, Some(er)),
                Ok(v) => if 0 <= st1.cur < st1.envs.len() {
                    (
                        SpecState {
                            envs: st1.envs.update(
                                st1.cur,
                                SpecScope {
                                    vals: assoc_set(st1.envs[st1.cur].vals, l.token@.lexeme, v),
                                    parent: st1.envs[st1.cur].parent,
                                },
                            ),
                            ..st1
                        },
                        None,
                    )
                } else {
                    (st1, None)
                },
            }
        },
        Stmt::Block(b) => {
            let inner = SpecState {
                envs: st.envs.push(SpecScope { vals: Seq::empty(), parent: Some(st.cur) }),
                cur: st.envs.len() as int,
                ..st
            };
            let (st1, out) = exec_stmts(fuel, b.statements@, inner);
            (SpecState { cur: st.cur, ..st1 }, out)
        },
        Stmt::If(i) => {
            let (st1, r) = eval_expr(fuel, i.condition, st);
            match r {
                Err(er) => (st1, Some(er)),
                Ok(c) => if truthy(c) {
                    exec_stmt(fuel, *i.then_branch, st1)
                } else {
                    match i.else_branch {
                        Some(e) => exec_stmt(fuel, *e, st1),
                        None => (st1, None),
                    }
                },
            }
        },
        Stmt::While(w) => exec_while(fuel, w, st),
        Stmt::Loop(l) => exec_loop(fuel, l, st),
        Stmt::LoopControl(lc) => (
            st,
            Some(
                match lc.keyword@.ttype {
                    TokenType::Break => SpecErr {
                        abort: Some(SpecAbort::Break),
                        ..diag_at(break_msg(), lc.keyword@)
                    },
                    TokenType::Continue => SpecErr {
                        abort: Some(SpecAbort::Continue),
                        ..diag_at(continue_msg(), lc.keyword@)
                    },
                    _ => diag_at(
                        "Unknown loop keyword: '"@ + lc.keyword@.lexeme + "'"@,
                        lc.keyword@,
                    ),
                },
            ),
        ),
        Stmt::Function(f) => {
            if 0 <= st.cur < st.envs.len() {
                let func = SpecVal::Func(
                    SpecCallable {
                        arity: f.params@.len() as int,
                        kind: SpecCallKind::User { decl: *f, closure: st.cur },
                    },
                );
                (
                    SpecState {
                        envs: st.envs.update(
                            st.cur,
                            SpecScope {
                                vals: assoc_set(st.envs[st.cur].vals, f.token@.lexeme, func),
                                parent: st.envs[st.cur].parent,
                            },
                        ),
                        ..st
                    },
                    None,
                )
            } else {
                (st, None)
            }
        },
        Stmt::Return(r) => {
            let (st1, vr) = match r.value {
                Some(e) => eval_expr(fuel, e, st),
                None => (st, Ok(SpecVal::Null)),
            };
            match vr {
                Err(er) => (st1, Some(er)),
                Ok(v) => (
                    st1,
                    Some(
                        SpecErr {
                            abort: Some(SpecAbort::Return(v)),
                            ..diag_at(return_msg(), r.keyword@)
                        },
                    ),
                ),
            }
        },
    }
}

/// Executes statements in order until one ends in a diagnostic or signal.
pub open spec fn exec_stmts(fuel: nat, ss: Seq<Stmt>, st: SpecState) -> (SpecState, Option<
    SpecErr,
>)
    decreases fuel, ss, 1int,
{
    if ss.len() == 0 {
        (st, None)
    } else {
        let (st1, out) = exec_stmt(fuel, ss[0], st);
        match out {
            Some(e) => (st1, Some(e)),
            None => exec_stmts(fuel, ss.skip(1), st1),
        }
    }
}

/// A `while` loop: repeats while the condition is truthy; a `break` signal
/// from the body ends the loop normally, a `continue` signal re-tests the
/// condition, any other outcome propagates. Each iteration spends fuel.
pub open spec fn exec_while(fuel: nat, w: WhileStmt, st: SpecState) -> (SpecState, Option<
    SpecErr,
>)
    decreases fuel, w, 2int,
{
    if fuel == 0 {
        (st, Some(fuel_err()))
    } else {
        let (st1, cr) = eval_expr(fuel, w.condition, st);
        match cr {
            Err(e) => (st1, Some(e)),
            Ok(c) => if !truthy(c) {
                (st1, None)
            } else {
                let (st2, out) = exec_stmt(fuel, *w.body, st1);
                match out {
                    None => exec_while((fuel - 1) as nat, w, st2),
                    Some(e) => match e.abort {
                        Some(SpecAbort::Break) => (st2, None),
                        Some(SpecAbort::Continue) => exec_while((fuel - 1) as nat, w, st2),
                        _ => (st2, Some(e)),
                    },
                }
            },
        }
    }
}

/// An unconditional `loop` with the same `break`/`continue` handling as
/// `while` and no condition. Each iteration spends fuel.
pub open spec fn exec_loop(fuel: nat, l: LoopStmt, st: SpecState) -> (SpecState, Option<SpecErr>)
    decreases fuel, l, 2int,
{
    if fuel == 0 {
        (st, Some(fuel_err()))
    } else {
        let (st1, out) = exec_stmt(fuel, *l.body, st);
        match out {
            None => exec_loop((fuel - 1) as nat, l, st1),
            Some(e) => match e.abort {
                Some(SpecAbort::Break) => (st1, None),
                Some(SpecAbort::Continue) => exec_loop((fuel - 1) as nat, l, st1),
                _ => (st1, Some(e)),
            },
        }
    }
}

/// Runs a statement list as a program: statements execute in order, and the
/// first diagnostic or signal stops the run and is the one reported.
pub open spec fn interpret_spec(fuel: nat, ss: Seq<Stmt>, st: SpecState) -> (SpecState, Option<
    SpecErr,
>) {
    exec_stmts(fuel, ss, st)
}

} // verus!
