//! Properties the library states about itself, each proved against the
//! semantics: loop-control and `return` signals are never silent, closures
//! capture the scope they were defined in, truthiness treats the empty
//! string and zero as the rule says, and printed literal values read back
//! as the same value.
use vstd::prelude::*;

use crate::ast::{FunctionStmt, LoopControlStmt, SpecExpr, SpecStmt, Stmt};
use crate::environment::assoc_set;
use crate::error::{SpecAbort, SpecErr};
use crate::grammar::parse_spec;
use crate::numeric::{is_finite_bits, is_zero_bits, num_parse, num_to_text};
use crate::semantics::{
    break_msg, call_user, continue_msg, exec_stmt, interpret_spec, return_msg, SpecState,
};
use crate::token::{Token, TokenType};
use crate::value::{truthy, Literal, SpecCallKind, SpecCallable, SpecVal};

verus! {

/// A `break` or `continue` statement never ends silently: executing it
/// yields a tagged signal carrying the diagnostic that is reported wherever
/// no loop intercepts it, and the state is untouched.
pub proof fn lemma_loop_control_is_never_silent(fuel: nat, lc: LoopControlStmt, st: SpecState)
    requires
        lc.keyword@.ttype == TokenType::Break || lc.keyword@.ttype == TokenType::Continue,
    ensures
        ({
            let (st1, out) = exec_stmt(fuel, Stmt::LoopControl(lc), st);
            &&& st1 == st
            &&& out matches Some(e) && e.abort == (if lc.keyword@.ttype == TokenType::Break {
                Some(SpecAbort::Break)
            } else {
                Some(SpecAbort::Continue)
            })
            &&& out matches Some(e) && e.msg == (if lc.keyword@.ttype == TokenType::Break {
                break_msg()
            } else {
                continue_msg()
            })
        }),
{
}

/// A `break`, `continue` or `return` at the top level of a program stops
/// the run with a diagnostic rather than a silent no-op: the program whose
/// first statement is the jump reports exactly that signal's diagnostic.
pub proof fn lemma_top_level_jump_is_reported(fuel: nat, lc: LoopControlStmt, st: SpecState)
    requires
        lc.keyword@.ttype == TokenType::Break || lc.keyword@.ttype == TokenType::Continue,
    ensures
        ({
            let (st1, out) = interpret_spec(fuel, seq![Stmt::LoopControl(lc)], st);
            &&& st1 == st
            &&& out matches Some(e) && e.msg == (if lc.keyword@.ttype == TokenType::Break {
                break_msg()
            } else {
                continue_msg()
            })
        }),
{
    let ss = seq![Stmt::LoopControl(lc)];
    assert(ss[0] == Stmt::LoopControl(lc));
    lemma_loop_control_is_never_silent(fuel, lc, st);
}

/// A `return` with no surrounding call yields the signal whose diagnostic
/// names it, with the state unchanged, never a silent no-op.
pub proof fn lemma_bare_return_signals(fuel: nat, r: crate::ast::ReturnStmt, st: SpecState)
    requires
        r.value is None,
    ensures
        ({
            let (st1, out) = exec_stmt(fuel, Stmt::Return(r), st);
            &&& st1 == st
            &&& out matches Some(e) && e.abort == Some(SpecAbort::Return(SpecVal::Null))
            &&& out matches Some(e) && e.msg == return_msg()
        }),
{
}

/// Defining a function captures the scope that is current at its
/// definition — not any caller's scope: the name becomes bound, in the
/// defining scope, to a function value whose closure index is that scope.
pub proof fn lemma_closure_captures_defining_scope(
    fuel: nat,
    f: std::rc::Rc<FunctionStmt>,
    st: SpecState,
)
    requires
        0 <= st.cur < st.envs.len(),
    ensures
        ({
            let (st1, out) = exec_stmt(fuel, Stmt::Function(f), st);
            let func = SpecVal::Func(
                SpecCallable {
                    arity: f.params@.len() as int,
                    kind: SpecCallKind::User { decl: *f, closure: st.cur },
                },
            );
            &&& out is None
            &&& st1.envs[st.cur].vals == assoc_set(st.envs[st.cur].vals, f.token@.lexeme, func)
            &&& st1.cur == st.cur
            &&& st1.output == st.output
        }),
{
}

/// A call is blind to the scope that is current at the call site: two
/// states that agree on the arena and the output — and may name any two
/// scopes as current — give one and the same call outcome, arena and
/// output, each with its own current scope restored. Together with the
/// capture lemma above this pins lexical scoping: the body resolves free
/// variables through the captured closure chain alone.
pub proof fn lemma_call_ignores_calling_scope(
    fuel: nat,
    decl: FunctionStmt,
    closure: int,
    args: Seq<SpecVal>,
    st1: SpecState,
    st2: SpecState,
)
    requires
        st1.envs == st2.envs,
        st1.output == st2.output,
    ensures
        ({
            let (out1, r1) = call_user(fuel, decl, closure, args, st1);
            let (out2, r2) = call_user(fuel, decl, closure, args, st2);
            &&& r1 == r2
            &&& out1.envs == out2.envs
            &&& out1.output == out2.output
            &&& out1.cur == st1.cur
            &&& out2.cur == st2.cur
        }),
{
    if 0 <= closure < st1.envs.len() {
        let entry = crate::environment::SpecScope {
            vals: crate::semantics::bind_params(
                decl.params@.map(|i: int, t: Token| t@.lexeme),
                args,
            ),
            parent: Some(closure),
        };
        let inner1 = SpecState {
            envs: st1.envs.push(entry),
            cur: st1.envs.len() as int,
            ..st1
        };
        let inner2 = SpecState {
            envs: st2.envs.push(entry),
            cur: st2.envs.len() as int,
            ..st2
        };
        assert(inner1 == inner2);
    }
}

/// Truthiness draws the line exactly where the rule says: `false`, `null`
/// and numeric zero of either sign are falsy; every other value, the empty
/// string among them, is truthy.
pub proof fn lemma_truthiness(v: SpecVal)
    ensures
        truthy(SpecVal::Str(Seq::empty())),
        !truthy(SpecVal::Null),
        !truthy(SpecVal::Bool(false)),
        v matches SpecVal::Num(b) ==> (truthy(v) <==> !is_zero_bits(b)),
        v matches SpecVal::Str(_) ==> truthy(v),
        v matches SpecVal::Func(_) ==> truthy(v),
{
}

/// A sole literal token followed by `;` parses to exactly that literal, as
/// one expression statement and with no diagnostics. With `num_to_text`'s
/// parse-back clause this carries the printed-form round trip of finite
/// numbers, booleans and null through the parser; only the scanner, which
/// the core treats as an external collaborator, stands between the printed
/// text and such a token.
#[verifier::rlimit(100)]
#[verifier::spinoff_prover]
pub proof fn lemma_literal_statement_parses_to_itself(toks: Seq<Token>)
    requires
        toks.len() == 3,
        toks[0].ttype == TokenType::Number || toks[0].ttype == TokenType::Text || toks[0].ttype
            == TokenType::True || toks[0].ttype == TokenType::False || toks[0].ttype
            == TokenType::Null,
        toks[1].ttype == TokenType::Semicolon,
        toks[2].ttype == TokenType::Eof,
    ensures
        ({
            let (ss, es) = parse_spec(toks);
            let expected = match toks[0].ttype {
                TokenType::True => SpecExpr::Literal { value: Some(Literal::Bool(true)) },
                TokenType::False => SpecExpr::Literal { value: Some(Literal::Bool(false)) },
                TokenType::Null => SpecExpr::Literal { value: Some(Literal::Null) },
                _ => SpecExpr::Literal { value: toks[0].literal },
            };
            &&& es == Seq::<SpecErr>::empty()
            &&& ss.len() == 1
            &&& ss[0] == SpecStmt::Expression { expression: expected }
        }),
{
    let e0 = Seq::<SpecErr>::empty();
    let expected = match toks[0].ttype {
        TokenType::True => SpecExpr::Literal { value: Some(Literal::Bool(true)) },
        TokenType::False => SpecExpr::Literal { value: Some(Literal::Bool(false)) },
        TokenType::Null => SpecExpr::Literal { value: Some(Literal::Null) },
        _ => SpecExpr::Literal { value: toks[0].literal },
    };
    assert(crate::grammar::p_primary(toks, 0, e0) == (1int, e0, Ok::<SpecExpr, SpecErr>(
        expected,
    )));
    assert(crate::grammar::p_call_tail(toks, 1, e0, expected) == (1int, e0, Ok::<
        SpecExpr,
        SpecErr,
    >(expected)));
    assert(crate::grammar::p_call(toks, 0, e0) == (1int, e0, Ok::<SpecExpr, SpecErr>(expected)));
    assert(crate::grammar::p_unary(toks, 0, e0) == (1int, e0, Ok::<SpecExpr, SpecErr>(expected)));
    assert(crate::grammar::p_factor_tail(toks, 1, e0, expected) == (1int, e0, Ok::<
        SpecExpr,
        SpecErr,
    >(expected)));
    assert(crate::grammar::p_factor(toks, 0, e0) == (1int, e0, Ok::<SpecExpr, SpecErr>(expected)));
    assert(crate::grammar::p_term_tail(toks, 1, e0, expected) == (1int, e0, Ok::<
        SpecExpr,
        SpecErr,
    >(expected)));
    assert(crate::grammar::p_term(toks, 0, e0) == (1int, e0, Ok::<SpecExpr, SpecErr>(expected)));
    assert(crate::grammar::p_comparison_tail(toks, 1, e0, expected) == (1int, e0, Ok::<
        SpecExpr,
        SpecErr,
    >(expected)));
    assert(crate::grammar::p_comparison(toks, 0, e0) == (1int, e0, Ok::<SpecExpr, SpecErr>(
        expected,
    )));
    assert(crate::grammar::p_equality_tail(toks, 1, e0, expected) == (1int, e0, Ok::<
        SpecExpr,
        SpecErr,
    >(expected)));
    assert(crate::grammar::p_equality(toks, 0, e0) == (1int, e0, Ok::<SpecExpr, SpecErr>(
        expected,
    )));
    assert(crate::grammar::p_ternary(toks, 0, e0) == (1int, e0, Ok::<SpecExpr, SpecErr>(
        expected,
    )));
    assert(crate::grammar::p_logical(toks, 0, e0) == (1int, e0, Ok::<SpecExpr, SpecErr>(
        expected,
    )));
    assert(crate::grammar::p_expression(toks, 0, e0) == (1int, e0, Ok::<SpecExpr, SpecErr>(
        expected,
    )));
    assert(crate::grammar::p_assignment(toks, 0, e0) == (1int, e0, Ok::<SpecExpr, SpecErr>(
        expected,
    )));
    let stmt = SpecStmt::Expression { expression: expected };
    assert(crate::grammar::p_expression_statement(toks, 0, e0) == (2int, e0, Ok::<
        SpecStmt,
        SpecErr,
    >(stmt)));
    assert(crate::grammar::p_statement(toks, 0, e0) == (2int, e0, Ok::<SpecStmt, SpecErr>(stmt)));
    assert(crate::grammar::p_declaration(toks, 0, e0) == (2int, e0, Ok::<SpecStmt, SpecErr>(
        stmt,
    )));
    assert(crate::grammar::is_end(toks, 2));
    assert(crate::grammar::p_program(toks, 2, e0, Seq::<SpecStmt>::empty().push(stmt)) == (
        Seq::<SpecStmt>::empty().push(stmt),
        e0,
    ));
    assert(crate::grammar::p_program(toks, 0, e0, Seq::<SpecStmt>::empty()) == (
        Seq::<SpecStmt>::empty().push(stmt),
        e0,
    ));
    assert(Seq::<SpecStmt>::empty().push(stmt)[0] == stmt);
}

/// Re-parses the printed form of a literal value. For every finite number
/// and for the booleans and null the result is the same value again; a
/// non-finite number and a string print as bare text that no longer reads
/// back as a literal of the language, and a function value has no literal
/// form at all, so those yield nothing.
pub fn reparse_literal(v: &Literal) -> (r: Option<Literal>)
    ensures
        match v.model() {
            SpecVal::Num(b) => is_finite_bits(b) ==> (r matches Some(x) && x.model()
                == SpecVal::Num(b)),
            SpecVal::Bool(b) => r matches Some(x) && x.model() == SpecVal::Bool(b),
            SpecVal::Null => r matches Some(x) && x.model() is Null,
            _ => true,
        },
{
    match v {
        Literal::Num(b) => {
            let text = num_to_text(*b);
            match num_parse(text.as_str()) {
                Some(b2) => Some(Literal::Num(b2)),
                None => None,
            }
        },
        Literal::Bool(b) => Some(Literal::Bool(*b)),
        Literal::Null => Some(Literal::Null),
        _ => None,
    }
}

} // verus!
