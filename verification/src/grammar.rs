//! The grammar, as one spec function per precedence level and statement
//! form: a recursive-descent definition over the token sequence, giving for
//! every start position the position reached, the diagnostics reported, and
//! the node built or the diagnostic that stopped the parse. The executable
//! parser returns exactly what these functions say. Progress guards keep
//! every definition well founded.
use vstd::prelude::*;

use crate::ast::{SpecExpr, SpecFnDecl, SpecStmt};
use crate::error::SpecErr;
use crate::token::{Token, TokenType};
use crate::value::Literal;

verus! {

/// Tokens not yet consumed, clamped so the measure is well defined.
pub open spec fn rem(toks: Seq<Token>, pos: int) -> nat {
    if 0 <= pos <= toks.len() {
        (toks.len() - pos) as nat
    } else {
        0
    }
}

/// The kind of the token at a position, `Invalid` outside the sequence.
pub open spec fn tt(toks: Seq<Token>, pos: int) -> TokenType {
    if 0 <= pos < toks.len() {
        toks[pos].ttype
    } else {
        TokenType::Invalid
    }
}

/// The cursor stands at the end marker or outside the sequence.
pub open spec fn is_end(toks: Seq<Token>, pos: int) -> bool {
    !(0 <= pos < toks.len()) || toks[pos].ttype == TokenType::Eof
}

/// The token at the cursor has the given kind and is not the end marker.
pub open spec fn check(toks: Seq<Token>, pos: int, t: TokenType) -> bool {
    !is_end(toks, pos) && tt(toks, pos) == t
}

/// One step of the cursor, which never moves past the end marker.
pub open spec fn adv(toks: Seq<Token>, pos: int) -> int {
    if is_end(toks, pos) {
        pos
    } else {
        pos + 1
    }
}

/// A diagnostic pointing at the token under the cursor, or at no token
/// where the cursor is outside the sequence.
pub open spec fn err_at(msg: Seq<char>, toks: Seq<Token>, pos: int) -> SpecErr {
    if 0 <= pos < toks.len() {
        SpecErr {
            msg,
            line: toks[pos]@.line,
            lexeme: toks[pos]@.lexeme,
            file: "file.vs"@,
            abort: None,
        }
    } else {
        SpecErr { msg, line: 0, lexeme: Seq::empty(), file: "file.vs"@, abort: None }
    }
}

/// The lexeme under the cursor, empty outside the sequence.
pub open spec fn lex_at(toks: Seq<Token>, pos: int) -> Seq<char> {
    if 0 <= pos < toks.len() {
        toks[pos]@.lexeme
    } else {
        Seq::empty()
    }
}

/// A primary expression: a literal, a variable, or a parenthesised
/// expression, the latter optionally followed by the postfix factorial.
pub open spec fn p_primary(toks: Seq<Token>, pos: int, errs: Seq<SpecErr>) -> (int, Seq<SpecErr>, Result<SpecExpr, SpecErr>)
    decreases rem(toks, pos), 0int,
{
    if check(toks, pos, TokenType::False) {
        (pos + 1, errs, Ok(SpecExpr::Literal { value: Some(Literal::Bool(false)) }))
    } else if check(toks, pos, TokenType::True) {
        (pos + 1, errs, Ok(SpecExpr::Literal { value: Some(Literal::Bool(true)) }))
    } else if check(toks, pos, TokenType::Null) {
        (pos + 1, errs, Ok(SpecExpr::Literal { value: Some(Literal::Null) }))
    } else if check(toks, pos, TokenType::Number) || check(toks, pos, TokenType::Text) {
        (pos + 1, errs, Ok(SpecExpr::Literal { value: toks[pos].literal }))
    } else if check(toks, pos, TokenType::Identifier) {
        (pos + 1, errs, Ok(SpecExpr::Variable { token: toks[pos] }))
    } else if check(toks, pos, TokenType::LeftParen) {
        let (p1, e1, r) = p_expression(toks, pos + 1, errs);
        match r {
            Err(er) => (p1, e1, Err(er)),
            Ok(inner) => if check(toks, p1, TokenType::RightParen) {
                if check(toks, p1 + 1, TokenType::Factorial) {
                    (
                        p1 + 2,
                        e1,
                        Ok(
                            SpecExpr::Postfix {
                                left: Box::new(SpecExpr::Grouping { expression: Box::new(inner) }),
                                operator: toks[p1 + 1],
                            },
                        ),
                    )
                } else {
                    (p1 + 1, e1, Ok(SpecExpr::Grouping { expression: Box::new(inner) }))
                }
            } else {
                (p1, e1, Err(err_at("Expected ')' after expression"@, toks, p1)))
            },
        }
    } else {
        (
            pos,
            errs,
            Err(
                err_at(
                    "Expected expression: Unexpected '"@ + lex_at(toks, pos) + "'"@,
                    toks,
                    pos,
                ),
            ),
        )
    }
}

/// The trailing `(...)` invocations after a callee.
pub open spec fn p_call_tail(toks: Seq<Token>, pos: int, errs: Seq<SpecErr>, callee: SpecExpr) -> (
    int,
    Seq<SpecErr>,
    Result<SpecExpr, SpecErr>,
)
    decreases rem(toks, pos), 1int,
{
    if check(toks, pos, TokenType::LeftParen) {
        let (p1, e1, r) = p_finish_call(toks, pos + 1, errs, callee);
        match r {
            Err(er) => (p1, e1, Err(er)),
            Ok(c) => if p1 > pos {
                p_call_tail(toks, p1, e1, c)
            } else {
                (p1, e1, Ok(c))
            },
        }
    } else {
        (pos, errs, Ok(callee))
    }
}

/// The argument list and closing parenthesis of one invocation.
pub open spec fn p_finish_call(toks: Seq<Token>, pos: int, errs: Seq<SpecErr>, callee: SpecExpr) -> (
    int,
    Seq<SpecErr>,
    Result<SpecExpr, SpecErr>,
)
    decreases rem(toks, pos), 31int,
{
    if !check(toks, pos, TokenType::RightParen) {
        let (p1, e1, r) = p_expression(toks, pos, errs);
        match r {
            Err(er) => (p1, e1, Err(er)),
            Ok(a0) => {
                let (p2, e2, ra) = if p1 > pos && pos >= 0 {
                    p_args_tail(toks, p1, e1, seq![a0])
                } else {
                    (p1, e1, Ok(seq![a0]))
                };
                match ra {
                    Err(er) => (p2, e2, Err(er)),
                    Ok(args) => p_close_call(toks, p2, e2, callee, args),
                }
            },
        }
    } else {
        p_close_call(toks, pos, errs, callee, Seq::empty())
    }
}

/// Further `, expression` arguments; beyond 255 each one reports a
/// diagnostic and parsing continues.
pub open spec fn p_args_tail(
    toks: Seq<Token>,
    pos: int,
    errs: Seq<SpecErr>,
    args: Seq<SpecExpr>,
) -> (int, Seq<SpecErr>, Result<Seq<SpecExpr>, SpecErr>)
    decreases rem(toks, pos), 30int,
{
    if check(toks, pos, TokenType::Comma) {
        let e0 = if args.len() >= 255 {
            errs.push(err_at("Cannot have more than 255 arguments"@, toks, pos))
        } else {
            errs
        };
        let (p1, e1, r) = p_expression(toks, pos + 1, e0);
        match r {
            Err(er) => (p1, e1, Err(er)),
            Ok(a) => if p1 > pos {
                p_args_tail(toks, p1, e1, args.push(a))
            } else {
                (p1, e1, Ok(args.push(a)))
            },
        }
    } else {
        (pos, errs, Ok(args))
    }
}

/// The closing parenthesis of an invocation, which also locates its
/// diagnostics.
pub open spec fn p_close_call(
    toks: Seq<Token>,
    pos: int,
    errs: Seq<SpecErr>,
    callee: SpecExpr,
    args: Seq<SpecExpr>,
) -> (int, Seq<SpecErr>, Result<SpecExpr, SpecErr>) {
    if check(toks, pos, TokenType::RightParen) {
        (
            pos + 1,
            errs,
            Ok(SpecExpr::Call { callee: Box::new(callee), paren: toks[pos], arguments: args }),
        )
    } else {
        (pos, errs, Err(err_at("Expected ')' after function arguments"@, toks, pos)))
    }
}

/// A primary expression with its trailing invocations.
pub open spec fn p_call(toks: Seq<Token>, pos: int, errs: Seq<SpecErr>) -> (int, Seq<SpecErr>, Result<SpecExpr, SpecErr>)
    decreases rem(toks, pos), 4int,
{
    let (p1, e1, r) = p_primary(toks, pos, errs);
    match r {
        Err(er) => (p1, e1, Err(er)),
        Ok(c) => if p1 >= pos && pos >= 0 {
            p_call_tail(toks, p1, e1, c)
        } else {
            (p1, e1, Ok(c))
        },
    }
}

/// A unary expression: the postfix factorial, detected by looking one token
/// past the unparsed primary; a prefix `!` or `-`; or a call.
pub open spec fn p_unary(toks: Seq<Token>, pos: int, errs: Seq<SpecErr>) -> (int, Seq<SpecErr>, Result<SpecExpr, SpecErr>)
    decreases rem(toks, pos), 6int,
{
    if !is_end(toks, pos) && tt(toks, pos + 1) == TokenType::Factorial {
        let op = toks[pos + 1];
        let (p1, e1, r) = p_primary(toks, pos, errs);
        match r {
            Err(er) => (p1, e1, Err(er)),
            Ok(left) => (
                adv(toks, p1),
                e1,
                Ok(SpecExpr::Postfix { left: Box::new(left), operator: op }),
            ),
        }
    } else if check(toks, pos, TokenType::Bang) || check(toks, pos, TokenType::Minus) {
        let op = toks[pos];
        let (p1, e1, r) = p_unary(toks, pos + 1, errs);
        match r {
            Err(er) => (p1, e1, Err(er)),
            Ok(right) => (p1, e1, Ok(SpecExpr::Prefix { operator: op, right: Box::new(right) })),
        }
    } else {
        p_call(toks, pos, errs)
    }
}

/// Whether a token kind is one of the `factor` operators.
pub open spec fn is_factor_op(t: TokenType) -> bool {
    t == TokenType::Slash || t == TokenType::Star || t == TokenType::Power
}

/// Whether a token kind is one of the `term` operators.
pub open spec fn is_term_op(t: TokenType) -> bool {
    t == TokenType::Minus || t == TokenType::Plus
}

/// Whether a token kind is one of the comparison operators.
pub open spec fn is_comparison_op(t: TokenType) -> bool {
    t == TokenType::Greater || t == TokenType::GreaterEqual || t == TokenType::Less || t
        == TokenType::LessEqual
}

/// Whether a token kind is one of the equality operators.
pub open spec fn is_equality_op(t: TokenType) -> bool {
    t == TokenType::BangEqual || t == TokenType::EqualEqual
}

/// Further `/ * ^` operators folded left-associatively.
pub open spec fn p_factor_tail(toks: Seq<Token>, pos: int, errs: Seq<SpecErr>, acc: SpecExpr) -> (
    int,
    Seq<SpecErr>,
    Result<SpecExpr, SpecErr>,
)
    decreases rem(toks, pos), 7int,
{
    if !is_end(toks, pos) && is_factor_op(tt(toks, pos)) {
        let op = toks[pos];
        let (p1, e1, r) = p_unary(toks, pos + 1, errs);
        match r {
            Err(er) => (p1, e1, Err(er)),
            Ok(right) => {
                let acc2 = SpecExpr::Binary {
                    left: Box::new(acc),
                    operator: op,
                    right: Box::new(right),
                };
                if p1 > pos {
                    p_factor_tail(toks, p1, e1, acc2)
                } else {
                    (p1, e1, Ok(acc2))
                }
            },
        }
    } else {
        (pos, errs, Ok(acc))
    }
}

/// A `factor`: unary expressions joined by `/ * ^`.
pub open spec fn p_factor(toks: Seq<Token>, pos: int, errs: Seq<SpecErr>) -> (int, Seq<SpecErr>, Result<SpecExpr, SpecErr>)
    decreases rem(toks, pos), 8int,
{
    let (p1, e1, r) = p_unary(toks, pos, errs);
    match r {
        Err(er) => (p1, e1, Err(er)),
        Ok(u) => if p1 >= pos && pos >= 0 {
            p_factor_tail(toks, p1, e1, u)
        } else {
            (p1, e1, Ok(u))
        },
    }
}

/// Further `+ -` operators folded left-associatively.
pub open spec fn p_term_tail(toks: Seq<Token>, pos: int, errs: Seq<SpecErr>, acc: SpecExpr) -> (
    int,
    Seq<SpecErr>,
    Result<SpecExpr, SpecErr>,
)
    decreases rem(toks, pos), 9int,
{
    if !is_end(toks, pos) && is_term_op(tt(toks, pos)) {
        let op = toks[pos];
        let (p1, e1, r) = p_factor(toks, pos + 1, errs);
        match r {
            Err(er) => (p1, e1, Err(er)),
            Ok(right) => {
                let acc2 = SpecExpr::Binary {
                    left: Box::new(acc),
                    operator: op,
                    right: Box::new(right),
                };
                if p1 > pos {
                    p_term_tail(toks, p1, e1, acc2)
                } else {
                    (p1, e1, Ok(acc2))
                }
            },
        }
    } else {
        (pos, errs, Ok(acc))
    }
}

/// A `term`: factors joined by `+ -`.
pub open spec fn p_term(toks: Seq<Token>, pos: int, errs: Seq<SpecErr>) -> (int, Seq<SpecErr>, Result<SpecExpr, SpecErr>)
    decreases rem(toks, pos), 10int,
{
    let (p1, e1, r) = p_factor(toks, pos, errs);
    match r {
        Err(er) => (p1, e1, Err(er)),
        Ok(u) => if p1 >= pos && pos >= 0 {
            p_term_tail(toks, p1, e1, u)
        } else {
            (p1, e1, Ok(u))
        },
    }
}

/// Further comparison operators folded left-associatively.
pub open spec fn p_comparison_tail(
    toks: Seq<Token>,
    pos: int,
    errs: Seq<SpecErr>,
    acc: SpecExpr,
) -> (int, Seq<SpecErr>, Result<SpecExpr, SpecErr>)
    decreases rem(toks, pos), 11int,
{
    if !is_end(toks, pos) && is_comparison_op(tt(toks, pos)) {
        let op = toks[pos];
        let (p1, e1, r) = p_term(toks, pos + 1, errs);
        match r {
            Err(er) => (p1, e1, Err(er)),
            Ok(right) => {
                let acc2 = SpecExpr::Binary {
                    left: Box::new(acc),
                    operator: op,
                    right: Box::new(right),
                };
                if p1 > pos {
                    p_comparison_tail(toks, p1, e1, acc2)
                } else {
                    (p1, e1, Ok(acc2))
                }
            },
        }
    } else {
        (pos, errs, Ok(acc))
    }
}

/// A comparison: terms joined by `> >= < <=`.
pub open spec fn p_comparison(toks: Seq<Token>, pos: int, errs: Seq<SpecErr>) -> (int, Seq<SpecErr>, Result<SpecExpr, SpecErr>)
    decreases rem(toks, pos), 12int,
{
    let (p1, e1, r) = p_term(toks, pos, errs);
    match r {
        Err(er) => (p1, e1, Err(er)),
        Ok(u) => if p1 >= pos && pos >= 0 {
            p_comparison_tail(toks, p1, e1, u)
        } else {
            (p1, e1, Ok(u))
        },
    }
}

/// Further equality operators folded left-associatively.
pub open spec fn p_equality_tail(toks: Seq<Token>, pos: int, errs: Seq<SpecErr>, acc: SpecExpr) -> (
    int,
    Seq<SpecErr>,
    Result<SpecExpr, SpecErr>,
)
    decreases rem(toks, pos), 13int,
{
    if !is_end(toks, pos) && is_equality_op(tt(toks, pos)) {
        let op = toks[pos];
        let (p1, e1, r) = p_comparison(toks, pos + 1, errs);
        match r {
            Err(er) => (p1, e1, Err(er)),
            Ok(right) => {
                let acc2 = SpecExpr::Binary {
                    left: Box::new(acc),
                    operator: op,
                    right: Box::new(right),
                };
                if p1 > pos {
                    p_equality_tail(toks, p1, e1, acc2)
                } else {
                    (p1, e1, Ok(acc2))
                }
            },
        }
    } else {
        (pos, errs, Ok(acc))
    }
}

/// An equality: comparisons joined by `== !=`.
pub open spec fn p_equality(toks: Seq<Token>, pos: int, errs: Seq<SpecErr>) -> (int, Seq<SpecErr>, Result<SpecExpr, SpecErr>)
    decreases rem(toks, pos), 14int,
{
    let (p1, e1, r) = p_comparison(toks, pos, errs);
    match r {
        Err(er) => (p1, e1, Err(er)),
        Ok(u) => if p1 >= pos && pos >= 0 {
            p_equality_tail(toks, p1, e1, u)
        } else {
            (p1, e1, Ok(u))
        },
    }
}

/// A ternary `? :` whose branches parse at full expression precedence, so
/// nested ternaries lean right.
pub open spec fn p_ternary(toks: Seq<Token>, pos: int, errs: Seq<SpecErr>) -> (int, Seq<SpecErr>, Result<SpecExpr, SpecErr>)
    decreases rem(toks, pos), 16int,
{
    let (p1, e1, r) = p_equality(toks, pos, errs);
    match r {
        Err(er) => (p1, e1, Err(er)),
        Ok(c) => if check(toks, p1, TokenType::QuestionMark) && p1 >= pos && pos >= 0 {
            let (p2, e2, rt) = p_expression(toks, p1 + 1, e1);
            match rt {
                Err(er) => (p2, e2, Err(er)),
                Ok(tv) => if check(toks, p2, TokenType::Colon) && p2 >= pos && pos >= 0 {
                    let (p3, e3, rf) = p_expression(toks, p2 + 1, e2);
                    match rf {
                        Err(er) => (p3, e3, Err(er)),
                        Ok(fv) => (
                            p3,
                            e3,
                            Ok(
                                SpecExpr::Ternary {
                                    condition: Box::new(c),
                                    true_expr: Box::new(tv),
                                    false_expr: Box::new(fv),
                                },
                            ),
                        ),
                    }
                } else {
                    (p2, e2, Err(err_at("Expected ':' in ternary expression"@, toks, p2)))
                },
            }
        } else {
            (p1, e1, Ok(c))
        },
    }
}

/// A logical `or`/`and` whose right side parses at full expression
/// precedence.
pub open spec fn p_logical(toks: Seq<Token>, pos: int, errs: Seq<SpecErr>) -> (int, Seq<SpecErr>, Result<SpecExpr, SpecErr>)
    decreases rem(toks, pos), 18int,
{
    let (p1, e1, r) = p_ternary(toks, pos, errs);
    match r {
        Err(er) => (p1, e1, Err(er)),
        Ok(lhs) => if (check(toks, p1, TokenType::Or) || check(toks, p1, TokenType::And)) && p1
            >= pos && pos >= 0 {
            let op = toks[p1];
            let (p2, e2, rr) = p_expression(toks, p1 + 1, e1);
            match rr {
                Err(er) => (p2, e2, Err(er)),
                Ok(rhs) => (
                    p2,
                    e2,
                    Ok(
                        SpecExpr::Logical {
                            left: Box::new(lhs),
                            operator: op,
                            right: Box::new(rhs),
                        },
                    ),
                ),
            }
        } else {
            (p1, e1, Ok(lhs))
        },
    }
}

/// An expression.
pub open spec fn p_expression(toks: Seq<Token>, pos: int, errs: Seq<SpecErr>) -> (int, Seq<SpecErr>, Result<SpecExpr, SpecErr>)
    decreases rem(toks, pos), 20int,
{
    p_logical(toks, pos, errs)
}

/// Whether a token kind is one of the assignment operators.
pub open spec fn is_assign_op(t: TokenType) -> bool {
    ||| t == TokenType::Equal
    ||| t == TokenType::PlusEqual
    ||| t == TokenType::MinusEqual
    ||| t == TokenType::StarEqual
    ||| t == TokenType::SlashEqual
    ||| t == TokenType::PowerEqual
    ||| t == TokenType::Increment
    ||| t == TokenType::Decrement
}

/// An assignment: an expression, and where an assignment operator follows a
/// variable, the write to it; an assignment operator after anything else
/// reports a diagnostic and yields the expression already parsed.
pub open spec fn p_assignment(toks: Seq<Token>, pos: int, errs: Seq<SpecErr>) -> (int, Seq<SpecErr>, Result<SpecExpr, SpecErr>)
    decreases rem(toks, pos), 22int,
{
    let (p1, e1, r) = p_expression(toks, pos, errs);
    match r {
        Err(er) => (p1, e1, Err(er)),
        Ok(expr) => if !is_end(toks, p1) && is_assign_op(tt(toks, p1)) {
            let atok = toks[p1];
            match expr {
                SpecExpr::Variable { token } => {
                    if atok.ttype == TokenType::Increment || atok.ttype == TokenType::Decrement {
                        (
                            p1 + 1,
                            e1,
                            Ok(
                                SpecExpr::Assign {
                                    token,
                                    assignment_token: atok,
                                    value: Box::new(expr),
                                },
                            ),
                        )
                    } else if p1 >= pos && pos >= 0 {
                        let (p2, e2, rv) = p_expression(toks, p1 + 1, e1);
                        match rv {
                            Err(er) => (p2, e2, Err(er)),
                            Ok(v) => (
                                p2,
                                e2,
                                Ok(
                                    SpecExpr::Assign {
                                        token,
                                        assignment_token: atok,
                                        value: Box::new(v),
                                    },
                                ),
                            ),
                        }
                    } else {
                        (p1, e1, Ok(expr))
                    }
                },
                _ => (
                    p1 + 1,
                    e1.push(
                        SpecErr {
                            msg: "Invalid assignment target at '"@ + atok@.lexeme + "'"@,
                            line: atok@.line,
                            lexeme: atok@.lexeme,
                            file: "file.vs"@,
                            abort: None,
                        },
                    ),
                    Ok(expr),
                ),
            }
        } else {
            (p1, e1, Ok(expr))
        },
    }
}

/// An expression statement: an assignment followed by `;`.
pub open spec fn p_expression_statement(toks: Seq<Token>, pos: int, errs: Seq<SpecErr>) -> (
    int,
    Seq<SpecErr>,
    Result<SpecStmt, SpecErr>,
)
    decreases rem(toks, pos), 23int,
{
    let (p1, e1, r) = p_assignment(toks, pos, errs);
    match r {
        Err(er) => (p1, e1, Err(er)),
        Ok(e) => if check(toks, p1, TokenType::Semicolon) {
            (p1 + 1, e1, Ok(SpecStmt::Expression { expression: e }))
        } else {
            (p1, e1, Err(err_at("Expected ';' after expression"@, toks, p1)))
        },
    }
}

/// A `print` statement, entered after its keyword.
pub open spec fn p_print_statement(toks: Seq<Token>, pos: int, errs: Seq<SpecErr>) -> (
    int,
    Seq<SpecErr>,
    Result<SpecStmt, SpecErr>,
)
    decreases rem(toks, pos), 23int,
{
    let (p1, e1, r) = p_expression(toks, pos, errs);
    match r {
        Err(er) => (p1, e1, Err(er)),
        Ok(e) => if check(toks, p1, TokenType::Semicolon) {
            (p1 + 1, e1, Ok(SpecStmt::Print { expression: e }))
        } else {
            (p1, e1, Err(err_at("Expected ';' after expression"@, toks, p1)))
        },
    }
}

/// A `return` statement, entered after its keyword, which is passed in.
pub open spec fn p_return_statement(
    toks: Seq<Token>,
    pos: int,
    errs: Seq<SpecErr>,
    keyword: Token,
) -> (int, Seq<SpecErr>, Result<SpecStmt, SpecErr>)
    decreases rem(toks, pos), 23int,
{
    let (p1, e1, r) = if !check(toks, pos, TokenType::Semicolon) {
        p_expression(toks, pos, errs)
    } else {
        (pos, errs, Ok(SpecExpr::Literal { value: Some(Literal::Null) }))
    };
    match r {
        Err(er) => (p1, e1, Err(er)),
        Ok(v) => if check(toks, p1, TokenType::Semicolon) {
            (p1 + 1, e1, Ok(SpecStmt::Return { keyword, value: Some(v) }))
        } else {
            (p1, e1, Err(err_at("Expected ';' after return value"@, toks, p1)))
        },
    }
}

/// A `let` declaration, entered after its keyword.
pub open spec fn p_variable_declaration(toks: Seq<Token>, pos: int, errs: Seq<SpecErr>) -> (
    int,
    Seq<SpecErr>,
    Result<SpecStmt, SpecErr>,
)
    decreases rem(toks, pos), 23int,
{
    if check(toks, pos, TokenType::Identifier) {
        let name = toks[pos];
        let (p1, e1, r) = if check(toks, pos + 1, TokenType::Equal) {
            p_expression(toks, pos + 2, errs)
        } else {
            (pos + 1, errs, Ok(SpecExpr::Literal { value: Some(Literal::Null) }))
        };
        match r {
            Err(er) => (p1, e1, Err(er)),
            Ok(init) => if check(toks, p1, TokenType::Semicolon) {
                (p1 + 1, e1, Ok(SpecStmt::Let { token: name, initializer: init }))
            } else {
                (p1, e1, Err(err_at("Expected ';' after variable declaration"@, toks, p1)))
            },
        }
    } else {
        (pos, errs, Err(err_at("Expected variable name"@, toks, pos)))
    }
}

/// The parameter list of a function declaration; beyond 255 each parameter
/// reports a diagnostic and parsing continues.
pub open spec fn p_params_tail(
    toks: Seq<Token>,
    pos: int,
    errs: Seq<SpecErr>,
    params: Seq<Token>,
) -> (int, Seq<SpecErr>, Result<Seq<Token>, SpecErr>)
    decreases rem(toks, pos), 23int,
{
    let e0 = if params.len() >= 255 {
        errs.push(err_at("Cannot have more than 255 parameters"@, toks, pos))
    } else {
        errs
    };
    if check(toks, pos, TokenType::Identifier) {
        let ps = params.push(toks[pos]);
        if check(toks, pos + 1, TokenType::Comma) {
            p_params_tail(toks, pos + 2, e0, ps)
        } else {
            (pos + 1, e0, Ok(ps))
        }
    } else {
        (pos, e0, Err(err_at("Expected parameter name"@, toks, pos)))
    }
}

/// A function declaration, entered after `fn`: name, parenthesised
/// parameters, and a braced body.
pub open spec fn p_function_declaration(toks: Seq<Token>, pos: int, errs: Seq<SpecErr>) -> (
    int,
    Seq<SpecErr>,
    Result<SpecStmt, SpecErr>,
)
    decreases rem(toks, pos), 26int,
{
    if !check(toks, pos, TokenType::Identifier) {
        (pos, errs, Err(err_at("Expected function name"@, toks, pos)))
    } else {
        let name = toks[pos];
        if !check(toks, pos + 1, TokenType::LeftParen) {
            (pos + 1, errs, Err(err_at("Expected '(' after function name"@, toks, pos + 1)))
        } else {
            let (p1, e1, rp) = if !check(toks, pos + 2, TokenType::RightParen) {
                p_params_tail(toks, pos + 2, errs, Seq::empty())
            } else {
                (pos + 2, errs, Ok(Seq::<Token>::empty()))
            };
            match rp {
                Err(er) => (p1, e1, Err(er)),
                Ok(params) => if !check(toks, p1, TokenType::RightParen) {
                    (p1, e1, Err(err_at("Expected ')' after function parameters"@, toks, p1)))
                } else if !check(toks, p1 + 1, TokenType::LeftBrace) {
                    (
                        p1 + 1,
                        e1,
                        Err(err_at("Expected '{' before function body"@, toks, p1 + 1)),
                    )
                } else if p1 + 2 > pos && pos >= 0 {
                    let (p2, e2, rb) = p_block(toks, p1 + 2, e1);
                    match rb {
                        Err(er) => (p2, e2, Err(er)),
                        Ok(body) => (
                            p2,
                            e2,
                            Ok(
                                SpecStmt::Function {
                                    decl: SpecFnDecl { token: name, params, body },
                                },
                            ),
                        ),
                    }
                } else {
                    (p1 + 2, e1, Err(err_at("Expected '{' before function body"@, toks, p1 + 2)))
                },
            }
        }
    }
}

/// A statement of any form, dispatched on its first token.
pub open spec fn p_statement(toks: Seq<Token>, pos: int, errs: Seq<SpecErr>) -> (
    int,
    Seq<SpecErr>,
    Result<SpecStmt, SpecErr>,
)
    decreases rem(toks, pos), 24int,
{
    if check(toks, pos, TokenType::While) {
        p_while_statement(toks, pos + 1, errs)
    } else if check(toks, pos, TokenType::Loop) {
        p_loop_statement(toks, pos + 1, errs)
    } else if check(toks, pos, TokenType::Break) || check(toks, pos, TokenType::Continue) {
        let keyword = toks[pos];
        if check(toks, pos + 1, TokenType::Semicolon) {
            (pos + 2, errs, Ok(SpecStmt::LoopControl { keyword }))
        } else {
            (
                pos + 1,
                errs,
                Err(err_at("Expected ';' after loop control statement"@, toks, pos + 1)),
            )
        }
    } else if check(toks, pos, TokenType::If) {
        p_if_statement(toks, pos + 1, errs)
    } else if check(toks, pos, TokenType::Print) {
        p_print_statement(toks, pos + 1, errs)
    } else if check(toks, pos, TokenType::Return) {
        p_return_statement(toks, pos + 1, errs, toks[pos])
    } else if check(toks, pos, TokenType::LeftBrace) {
        let (p1, e1, r) = p_block(toks, pos + 1, errs);
        match r {
            Err(er) => (p1, e1, Err(er)),
            Ok(ss) => (p1, e1, Ok(SpecStmt::Block { statements: ss })),
        }
    } else {
        p_expression_statement(toks, pos, errs)
    }
}

/// An `if` statement, entered after its keyword: a condition, a brace-led
/// then branch, and an optional `else` branch.
pub open spec fn p_if_statement(toks: Seq<Token>, pos: int, errs: Seq<SpecErr>) -> (
    int,
    Seq<SpecErr>,
    Result<SpecStmt, SpecErr>,
)
    decreases rem(toks, pos), 25int,
{
    let (p1, e1, r) = p_expression(toks, pos, errs);
    match r {
        Err(er) => (p1, e1, Err(er)),
        Ok(c) => if !check(toks, p1, TokenType::LeftBrace) {
            (p1, e1, Err(err_at("Expected '{' after condition"@, toks, p1)))
        } else if p1 > pos && pos >= 0 {
            let (p2, e2, rt) = p_statement(toks, p1, e1);
            match rt {
                Err(er) => (p2, e2, Err(er)),
                Ok(th) => if check(toks, p2, TokenType::Else) && p2 >= pos {
                    let (p3, e3, re) = p_statement(toks, p2 + 1, e2);
                    match re {
                        Err(er) => (p3, e3, Err(er)),
                        Ok(el) => (
                            p3,
                            e3,
                            Ok(
                                SpecStmt::If {
                                    condition: c,
                                    then_branch: Box::new(th),
                                    else_branch: Some(Box::new(el)),
                                },
                            ),
                        ),
                    }
                } else {
                    (
                        p2,
                        e2,
                        Ok(
                            SpecStmt::If {
                                condition: c,
                                then_branch: Box::new(th),
                                else_branch: None,
                            },
                        ),
                    )
                },
            }
        } else {
            (p1, e1, Err(err_at("Expected '{' after condition"@, toks, p1)))
        },
    }
}

/// A `while` statement, entered after its keyword: a condition and a
/// brace-led body.
pub open spec fn p_while_statement(toks: Seq<Token>, pos: int, errs: Seq<SpecErr>) -> (
    int,
    Seq<SpecErr>,
    Result<SpecStmt, SpecErr>,
)
    decreases rem(toks, pos), 25int,
{
    let (p1, e1, r) = p_expression(toks, pos, errs);
    match r {
        Err(er) => (p1, e1, Err(er)),
        Ok(c) => if !check(toks, p1, TokenType::LeftBrace) {
            (p1, e1, Err(err_at("Expected '{' after condition"@, toks, p1)))
        } else if p1 > pos && pos >= 0 {
            let (p2, e2, rb) = p_statement(toks, p1, e1);
            match rb {
                Err(er) => (p2, e2, Err(er)),
                Ok(b) => (p2, e2, Ok(SpecStmt::While { condition: c, body: Box::new(b) })),
            }
        } else {
            (p1, e1, Err(err_at("Expected '{' after condition"@, toks, p1)))
        },
    }
}

/// A `loop` statement, entered after its keyword: a brace-led body.
pub open spec fn p_loop_statement(toks: Seq<Token>, pos: int, errs: Seq<SpecErr>) -> (
    int,
    Seq<SpecErr>,
    Result<SpecStmt, SpecErr>,
)
    decreases rem(toks, pos), 25int,
{
    if !check(toks, pos, TokenType::LeftBrace) {
        (pos, errs, Err(err_at("Expected '{' after loop keyword"@, toks, pos)))
    } else {
        let (p1, e1, r) = p_statement(toks, pos, errs);
        match r {
            Err(er) => (p1, e1, Err(er)),
            Ok(b) => (p1, e1, Ok(SpecStmt::Loop { body: Box::new(b) })),
        }
    }
}

/// A declaration: a `let` or `fn` declaration, or any other statement.
pub open spec fn p_declaration(toks: Seq<Token>, pos: int, errs: Seq<SpecErr>) -> (
    int,
    Seq<SpecErr>,
    Result<SpecStmt, SpecErr>,
)
    decreases rem(toks, pos), 27int,
{
    if check(toks, pos, TokenType::Let) {
        p_variable_declaration(toks, pos + 1, errs)
    } else if check(toks, pos, TokenType::Fn) {
        p_function_declaration(toks, pos + 1, errs)
    } else {
        p_statement(toks, pos, errs)
    }
}

/// The declarations of a block, up to its closing brace, appended to the
/// accumulator.
pub open spec fn p_block_acc(toks: Seq<Token>, pos: int, errs: Seq<SpecErr>, acc: Seq<SpecStmt>) -> (
    int,
    Seq<SpecErr>,
    Result<Seq<SpecStmt>, SpecErr>,
)
    decreases rem(toks, pos), 28int,
{
    if !check(toks, pos, TokenType::RightBrace) && !is_end(toks, pos) {
        let (p1, e1, r) = p_declaration(toks, pos, errs);
        match r {
            Err(er) => (p1, e1, Err(er)),
            Ok(s) => if p1 > pos && pos >= 0 {
                p_block_acc(toks, p1, e1, acc.push(s))
            } else {
                (p1, e1, Err(err_at("Expected '}' after block"@, toks, p1)))
            },
        }
    } else {
        if check(toks, pos, TokenType::RightBrace) {
            (pos + 1, errs, Ok(acc))
        } else {
            (pos, errs, Err(err_at("Expected '}' after block"@, toks, pos)))
        }
    }
}

/// The declarations of a block, up to its closing brace.
pub open spec fn p_block(toks: Seq<Token>, pos: int, errs: Seq<SpecErr>) -> (
    int,
    Seq<SpecErr>,
    Result<Seq<SpecStmt>, SpecErr>,
)
    decreases rem(toks, pos), 29int,
{
    p_block_acc(toks, pos, errs, Seq::empty())
}

/// Where error recovery resumes: past the next `;`, or at the next token
/// that starts a declaration or statement.
pub open spec fn p_sync(toks: Seq<Token>, pos: int) -> int
    decreases rem(toks, pos),
{
    if is_end(toks, pos) {
        pos
    } else if 0 <= pos - 1 < toks.len() && toks[pos - 1].ttype == TokenType::Semicolon {
        pos
    } else if tt(toks, pos) == TokenType::Class || tt(toks, pos) == TokenType::Fn || tt(
        toks,
        pos,
    ) == TokenType::Let || tt(toks, pos) == TokenType::For || tt(toks, pos) == TokenType::If || tt(
        toks,
        pos,
    ) == TokenType::While || tt(toks, pos) == TokenType::Print || tt(toks, pos)
        == TokenType::Return {
        pos
    } else {
        p_sync(toks, pos + 1)
    }
}

/// A whole program: declarations until the end marker. A declaration that
/// fails is recorded and parsing resumes at the next statement boundary, so
/// several syntax errors can surface in one run.
pub open spec fn p_program(toks: Seq<Token>, pos: int, errs: Seq<SpecErr>, acc: Seq<SpecStmt>) -> (
    Seq<SpecStmt>,
    Seq<SpecErr>,
)
    decreases rem(toks, pos),
{
    if is_end(toks, pos) || pos < 0 {
        (acc, errs)
    } else {
        let (p1, e1, r) = p_declaration(toks, pos, errs);
        match r {
            Ok(s) => if p1 > pos {
                p_program(toks, p1, e1, acc.push(s))
            } else {
                (acc.push(s), e1)
            },
            Err(er) => {
                let p2 = p_sync(toks, adv(toks, p1));
                if p2 > pos {
                    p_program(toks, p2, e1.push(er), acc)
                } else {
                    (acc, e1.push(er))
                }
            },
        }
    }
}

/// Parsing a token sequence: the statements built and the diagnostics
/// reported.
pub open spec fn parse_spec(toks: Seq<Token>) -> (Seq<SpecStmt>, Seq<SpecErr>) {
    p_program(toks, 0, Seq::empty(), Seq::empty())
}

} // verus!
