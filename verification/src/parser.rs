//! The recursive-descent parser. It walks the token sequence with a cursor
//! and builds the syntax tree; every method returns exactly the node, the
//! cursor position and the diagnostics that the grammar in `grammar` gives
//! for its start position. A failed declaration is recorded and the parser
//! resynchronises at the next statement boundary.
use vstd::prelude::*;

use crate::ast::{
    AssignExpr, BinaryExpr, BlockStmt, CallExpr, Expr, ExpressionStmt, FunctionStmt, GroupingExpr,
    IfStmt, LetStmt, LiteralExpr, LogicalExpr, LoopControlStmt, LoopStmt, PostfixExpr, PrefixExpr,
    PrintStmt, ReturnStmt, SpecExpr, SpecStmt, Stmt, TernaryExpr, VariableExpr, WhileStmt,
    stmts_ast,
};
use crate::error::{SpecErr, ViskumError};
use crate::grammar::{
    adv, check, err_at, is_end, lex_at, p_args_tail, p_assignment, p_block, p_block_acc, p_call,
    p_call_tail, p_close_call, p_comparison, p_comparison_tail, p_declaration, p_equality,
    p_equality_tail, p_expression, p_expression_statement, p_factor, p_factor_tail, p_finish_call,
    p_function_declaration, p_if_statement, p_logical, p_loop_statement, p_params_tail, p_primary,
    p_print_statement, p_program, p_return_statement, p_statement, p_sync, p_term, p_term_tail,
    p_ternary, p_unary, p_variable_declaration, p_while_statement, rem,
};
use crate::strings::strcat;
use crate::token::{Token, TokenType};
use crate::value::Literal;
use std::rc::Rc;

verus! {

/// An executable expression outcome agrees with a grammar outcome.
pub open spec fn expr_matches(r: Result<Expr, ViskumError>, s: Result<SpecExpr, SpecErr>) -> bool {
    match (r, s) {
        (Ok(x), Ok(sx)) => x.ast() == sx,
        (Err(e), Err(se)) => e.model() == se,
        _ => false,
    }
}

/// An executable statement outcome agrees with a grammar outcome.
pub open spec fn stmt_node_matches(r: Result<Stmt, ViskumError>, s: Result<
    SpecStmt,
    SpecErr,
>) -> bool {
    match (r, s) {
        (Ok(x), Ok(sx)) => x.ast() == sx,
        (Err(e), Err(se)) => e.model() == se,
        _ => false,
    }
}

/// The parser: the token sequence, a cursor into it, and the diagnostics
/// recorded so far.
pub struct Parser {
    tokens: Vec<Token>,
    current: usize,
    errors: Vec<ViskumError>,
}

impl Parser {
    /// The tokens being parsed.
    pub closed spec fn toks(&self) -> Seq<Token> {
        self.tokens@
    }

    /// The cursor.
    pub closed spec fn pos(&self) -> int {
        self.current as int
    }

    /// Ghost image of the recorded diagnostics.
    pub closed spec fn errs(&self) -> Seq<SpecErr> {
        self.errors@.map(|i: int, e: ViskumError| e.model())
    }

    /// A parser at the start of the given tokens with nothing recorded.
    pub fn new(tokens: Vec<Token>) -> (r: Parser)
        ensures
            r.toks() == tokens@,
            r.pos() == 0,
            r.errs() == Seq::<SpecErr>::empty(),
    {
        let r = Parser { tokens, current: 0, errors: Vec::new() };
        proof {
            assert(r.errs() =~= Seq::<SpecErr>::empty());
        }
        r
    }

    /// The recorded diagnostics, handed over.
    pub fn take_errors(self) -> (r: Vec<ViskumError>)
        ensures
            r@.map(|i: int, e: ViskumError| e.model()) == self.errs(),
    {
        self.errors
    }

    fn is_at_end(&self) -> (r: bool)
        ensures
            r == is_end(self.toks(), self.pos()),
    {
        if self.current < self.tokens.len() {
            self.tokens[self.current].is(TokenType::Eof)
        } else {
            true
        }
    }

    fn check(&self, t: TokenType) -> (r: bool)
        ensures
            r == check(self.toks(), self.pos(), t),
    {
        if self.is_at_end() {
            false
        } else {
            self.tokens[self.current].is(t)
        }
    }

    fn check_at(&self, i: usize, t: TokenType) -> (r: bool)
        ensures
            r == check(self.toks(), i as int, t),
    {
        if i < self.tokens.len() {
            !self.tokens[i].is(TokenType::Eof) && self.tokens[i].is(t)
        } else {
            false
        }
    }

    fn bump(&mut self)
        requires
            0 <= old(self).pos() < old(self).toks().len(),
        ensures
            final(self).toks() == old(self).toks(),
            final(self).errs() == old(self).errs(),
            final(self).pos() == old(self).pos() + 1,
    {
        let _ = self.tokens.len();
        self.current = self.current + 1;
    }

    fn tok_here(&self) -> (r: Token)
        requires
            0 <= self.pos() < self.toks().len(),
        ensures
            r == self.toks()[self.pos()],
    {
        self.tokens[self.current].duplicate()
    }

    fn error_here(&self, msg: &str) -> (r: ViskumError)
        ensures
            r.model() == err_at(msg@, self.toks(), self.pos()),
    {
        if self.current < self.tokens.len() {
            ViskumError::new(msg, self.tokens[self.current].duplicate(), "file.vs")
        } else {
            ViskumError::new(msg, Token::invalid(None), "file.vs")
        }
    }

    fn error_dynamic_here(&self, msg: String) -> (r: ViskumError)
        ensures
            r.model() == err_at(msg@, self.toks(), self.pos()),
    {
        if self.current < self.tokens.len() {
            ViskumError::new_dynamic(msg, self.tokens[self.current].duplicate(), "file.vs")
        } else {
            ViskumError::new_dynamic(msg, Token::invalid(None), "file.vs")
        }
    }

    /// A primary expression.
    #[verifier::rlimit(100)]
    fn primary(&mut self) -> (r: Result<Expr, ViskumError>)
        ensures
            final(self).toks() == old(self).toks(),
            ({
                let (p_, e_, r_) = p_primary(old(self).toks(), old(self).pos(), old(self).errs());
                final(self).pos() == p_ && final(self).errs() == e_ && expr_matches(r, r_)
            }),
        decreases rem(self.toks(), self.pos()), 0int,
    {
        if self.check(TokenType::False) {
            self.bump();
            Ok(Expr::Literal(LiteralExpr { value: Some(Literal::Bool(false)) }))
        } else if self.check(TokenType::True) {
            self.bump();
            Ok(Expr::Literal(LiteralExpr { value: Some(Literal::Bool(true)) }))
        } else if self.check(TokenType::Null) {
            self.bump();
            Ok(Expr::Literal(LiteralExpr { value: Some(Literal::Null) }))
        } else if self.check(TokenType::Number) || self.check(TokenType::Text) {
            let v = match &self.tokens[self.current].literal {
                Some(l) => Some(l.duplicate()),
                None => None,
            };
            self.bump();
            Ok(Expr::Literal(LiteralExpr { value: v }))
        } else if self.check(TokenType::Identifier) {
            let t = self.tok_here();
            self.bump();
            Ok(Expr::Variable(VariableExpr { token: t }))
        } else if self.check(TokenType::LeftParen) {
            self.bump();
            let inner = match self.expression() {
                Ok(e) => e,
                Err(er) => {
                    return Err(er);
                },
            };
            if self.check(TokenType::RightParen) {
                self.bump();
                let ghost inner_ast = inner.ast();
                let g = Expr::Grouping(GroupingExpr { expression: Box::new(inner) });
                proof {
                    assert(g.ast() == (SpecExpr::Grouping { expression: Box::new(inner_ast) }));
                }
                if self.check(TokenType::Factorial) {
                    let op = self.tok_here();
                    self.bump();
                    let node = Expr::Postfix(PostfixExpr { left: Box::new(g), operator: op });
                    proof {
                        assert(node.ast() == (SpecExpr::Postfix {
                            left: Box::new(SpecExpr::Grouping { expression: Box::new(inner_ast) }),
                            operator: op,
                        }));
                    }
                    Ok(node)
                } else {
                    Ok(g)
                }
            } else {
                Err(self.error_here("Expected ')' after expression"))
            }
        } else {
            let mut msg = "Expected expression: Unexpected '".to_owned();
            if self.current < self.tokens.len() {
                msg = strcat(msg, self.tokens[self.current].lexeme.as_str());
            }
            msg = strcat(msg, "'");
            proof {
                if !(0 <= self.pos() < self.toks().len()) {
                    assert(msg@ =~= "Expected expression: Unexpected '"@ + lex_at(
                        self.toks(),
                        self.pos(),
                    ) + "'"@);
                }
            }
            Err(self.error_dynamic_here(msg))
        }
    }

    /// The trailing invocations after a callee.
    fn call_tail(&mut self, callee: Expr) -> (r: Result<Expr, ViskumError>)
        ensures
            final(self).toks() == old(self).toks(),
            ({
                let (p_, e_, r_) = p_call_tail(
                    old(self).toks(),
                    old(self).pos(),
                    old(self).errs(),
                    callee.ast(),
                );
                final(self).pos() == p_ && final(self).errs() == e_ && expr_matches(r, r_)
            }),
        decreases rem(self.toks(), self.pos()), 1int,
    {
        if self.check(TokenType::LeftParen) {
            let entry = self.current;
            self.bump();
            let c = match self.finish_call(callee) {
                Ok(c) => c,
                Err(er) => {
                    return Err(er);
                },
            };
            if self.current > entry {
                self.call_tail(c)
            } else {
                Ok(c)
            }
        } else {
            Ok(callee)
        }
    }

    /// The argument list and closing parenthesis of one invocation.
    #[verifier::rlimit(100)]
    fn finish_call(&mut self, callee: Expr) -> (r: Result<Expr, ViskumError>)
        ensures
            final(self).toks() == old(self).toks(),
            ({
                let (p_, e_, r_) = p_finish_call(
                    old(self).toks(),
                    old(self).pos(),
                    old(self).errs(),
                    callee.ast(),
                );
                final(self).pos() == p_ && final(self).errs() == e_ && expr_matches(r, r_)
            }),
        decreases rem(self.toks(), self.pos()), 31int,
    {
        let mut arguments: Vec<Expr> = Vec::new();
        if !self.check(TokenType::RightParen) {
            let entry = self.current;
            let a0 = match self.expression() {
                Ok(a) => a,
                Err(er) => {
                    return Err(er);
                },
            };
            arguments.push(a0);
            proof {
                assert(arguments@.skip(1) =~= Seq::<Expr>::empty());
                assert(crate::ast::exprs_ast(arguments@) == seq![arguments@[0].ast()]
                    + crate::ast::exprs_ast(arguments@.skip(1)));
                assert(seq![arguments@[0].ast()] + Seq::<SpecExpr>::empty() =~= seq![a0.ast()]);
            }
            if self.current > entry {
                match self.args_tail(&mut arguments) {
                    Ok(_) => (),
                    Err(er) => {
                        return Err(er);
                    },
                }
            }
        }
        proof {
            if arguments@.len() == 0 {
                assert(crate::ast::exprs_ast(arguments@) =~= Seq::<SpecExpr>::empty());
            }
        }
        self.close_call(callee, arguments)
    }

    /// Further comma-led arguments, appended to the list.
    #[verifier::rlimit(60)]
    fn args_tail(&mut self, arguments: &mut Vec<Expr>) -> (r: Result<(), ViskumError>)
        ensures
            final(self).toks() == old(self).toks(),
            ({
                let (p_, e_, r_) = p_args_tail(
                    old(self).toks(),
                    old(self).pos(),
                    old(self).errs(),
                    crate::ast::exprs_ast(old(arguments)@),
                );
                final(self).pos() == p_ && final(self).errs() == e_ && match (r, r_) {
                    (Ok(_), Ok(sargs)) => crate::ast::exprs_ast(final(arguments)@) == sargs,
                    (Err(e), Err(se)) => e.model() == se,
                    _ => false,
                }
            }),
        decreases rem(self.toks(), self.pos()), 30int,
    {
        proof {
            lemma_exprs_ast_len(arguments@);
        }
        if self.check(TokenType::Comma) {
            if arguments.len() >= 255 {
                let er = self.error_here("Cannot have more than 255 arguments");
                let ghost pre = self.errs();
                let ghost em = er.model();
                self.errors.push(er);
                proof {
                    assert(self.errs() =~= pre.push(em));
                }
            }
            let entry = self.current;
            self.bump();
            let a = match self.expression() {
                Ok(a) => a,
                Err(er) => {
                    return Err(er);
                },
            };
            let ghost pre = arguments@;
            arguments.push(a);
            proof {
                lemma_exprs_ast_push(pre, a);
            }
            if self.current > entry {
                self.args_tail(arguments)
            } else {
                Ok(())
            }
        } else {
            Ok(())
        }
    }

    /// The closing parenthesis of an invocation.
    fn close_call(&mut self, callee: Expr, arguments: Vec<Expr>) -> (r: Result<Expr, ViskumError>)
        ensures
            final(self).toks() == old(self).toks(),
            ({
                let (p_, e_, r_) = p_close_call(
                    old(self).toks(),
                    old(self).pos(),
                    old(self).errs(),
                    callee.ast(),
                    crate::ast::exprs_ast(arguments@),
                );
                final(self).pos() == p_ && final(self).errs() == e_ && expr_matches(r, r_)
            }),
    {
        if self.check(TokenType::RightParen) {
            let paren = self.tok_here();
            self.bump();
            Ok(Expr::Call(CallExpr { callee: Box::new(callee), paren, arguments }))
        } else {
            Err(self.error_here("Expected ')' after function arguments"))
        }
    }

    /// A primary expression with its trailing invocations.
    fn call(&mut self) -> (r: Result<Expr, ViskumError>)
        ensures
            final(self).toks() == old(self).toks(),
            ({
                let (p_, e_, r_) = p_call(old(self).toks(), old(self).pos(), old(self).errs());
                final(self).pos() == p_ && final(self).errs() == e_ && expr_matches(r, r_)
            }),
        decreases rem(self.toks(), self.pos()), 4int,
    {
        let entry = self.current;
        let c = match self.primary() {
            Ok(c) => c,
            Err(er) => {
                return Err(er);
            },
        };
        if self.current >= entry {
            self.call_tail(c)
        } else {
            Ok(c)
        }
    }

    /// A unary expression: postfix factorial by one-token lookahead, prefix
    /// `!` or `-`, or a call.
    fn unary(&mut self) -> (r: Result<Expr, ViskumError>)
        ensures
            final(self).toks() == old(self).toks(),
            ({
                let (p_, e_, r_) = p_unary(old(self).toks(), old(self).pos(), old(self).errs());
                final(self).pos() == p_ && final(self).errs() == e_ && expr_matches(r, r_)
            }),
        decreases rem(self.toks(), self.pos()), 6int,
    {
        let _ = self.tokens.len();
        if !self.is_at_end() && self.check_at(self.current + 1, TokenType::Factorial) {
            let op = self.tokens[self.current + 1].duplicate();
            let left = match self.primary() {
                Ok(l) => l,
                Err(er) => {
                    return Err(er);
                },
            };
            if !self.is_at_end() {
                self.bump();
            }
            Ok(Expr::Postfix(PostfixExpr { left: Box::new(left), operator: op }))
        } else if self.check(TokenType::Bang) || self.check(TokenType::Minus) {
            let op = self.tok_here();
            self.bump();
            let right = match self.unary() {
                Ok(x) => x,
                Err(er) => {
                    return Err(er);
                },
            };
            Ok(Expr::Prefix(PrefixExpr { operator: op, right: Box::new(right) }))
        } else {
            self.call()
        }
    }

    /// A factor: unary expressions joined by `/ * ^`.
    fn factor(&mut self) -> (r: Result<Expr, ViskumError>)
        ensures
            final(self).toks() == old(self).toks(),
            ({
                let (p_, e_, r_) = p_factor(old(self).toks(), old(self).pos(), old(self).errs());
                final(self).pos() == p_ && final(self).errs() == e_ && expr_matches(r, r_)
            }),
        decreases rem(self.toks(), self.pos()), 8int,
    {
        let entry = self.current;
        let u = match self.unary() {
            Ok(u) => u,
            Err(er) => {
                return Err(er);
            },
        };
        if self.current >= entry {
            self.factor_tail(u)
        } else {
            Ok(u)
        }
    }

    fn factor_tail(&mut self, acc: Expr) -> (r: Result<Expr, ViskumError>)
        ensures
            final(self).toks() == old(self).toks(),
            ({
                let (p_, e_, r_) = p_factor_tail(
                    old(self).toks(),
                    old(self).pos(),
                    old(self).errs(),
                    acc.ast(),
                );
                final(self).pos() == p_ && final(self).errs() == e_ && expr_matches(r, r_)
            }),
        decreases rem(self.toks(), self.pos()), 7int,
    {
        if self.check(TokenType::Slash) || self.check(TokenType::Star) || self.check(
            TokenType::Power,
        ) {
            let op = self.tok_here();
            let entry = self.current;
            self.bump();
            let right = match self.unary() {
                Ok(x) => x,
                Err(er) => {
                    return Err(er);
                },
            };
            let acc2 = Expr::Binary(
                BinaryExpr { left: Box::new(acc), operator: op, right: Box::new(right) },
            );
            if self.current > entry {
                self.factor_tail(acc2)
            } else {
                Ok(acc2)
            }
        } else {
            Ok(acc)
        }
    }

    /// A term: factors joined by `+ -`.
    #[verifier::rlimit(60)]
    fn term(&mut self) -> (r: Result<Expr, ViskumError>)
        ensures
            final(self).toks() == old(self).toks(),
            ({
                let (p_, e_, r_) = p_term(old(self).toks(), old(self).pos(), old(self).errs());
                final(self).pos() == p_ && final(self).errs() == e_ && expr_matches(r, r_)
            }),
        decreases rem(self.toks(), self.pos()), 10int,
    {
        let entry = self.current;
        let u = match self.factor() {
            Ok(u) => u,
            Err(er) => {
                return Err(er);
            },
        };
        if self.current >= entry {
            self.term_tail(u)
        } else {
            Ok(u)
        }
    }

    fn term_tail(&mut self, acc: Expr) -> (r: Result<Expr, ViskumError>)
        ensures
            final(self).toks() == old(self).toks(),
            ({
                let (p_, e_, r_) = p_term_tail(
                    old(self).toks(),
                    old(self).pos(),
                    old(self).errs(),
                    acc.ast(),
                );
                final(self).pos() == p_ && final(self).errs() == e_ && expr_matches(r, r_)
            }),
        decreases rem(self.toks(), self.pos()), 9int,
    {
        if self.check(TokenType::Minus) || self.check(TokenType::Plus) {
            let op = self.tok_here();
            let entry = self.current;
            self.bump();
            let right = match self.factor() {
                Ok(x) => x,
                Err(er) => {
                    return Err(er);
                },
            };
            let acc2 = Expr::Binary(
                BinaryExpr { left: Box::new(acc), operator: op, right: Box::new(right) },
            );
            if self.current > entry {
                self.term_tail(acc2)
            } else {
                Ok(acc2)
            }
        } else {
            Ok(acc)
        }
    }

    /// A comparison: terms joined by `> >= < <=`.
    #[verifier::rlimit(60)]
    fn comparison(&mut self) -> (r: Result<Expr, ViskumError>)
        ensures
            final(self).toks() == old(self).toks(),
            ({
                let (p_, e_, r_) = p_comparison(
                    old(self).toks(),
                    old(self).pos(),
                    old(self).errs(),
                );
                final(self).pos() == p_ && final(self).errs() == e_ && expr_matches(r, r_)
            }),
        decreases rem(self.toks(), self.pos()), 12int,
    {
        let entry = self.current;
        let u = match self.term() {
            Ok(u) => u,
            Err(er) => {
                return Err(er);
            },
        };
        if self.current >= entry {
            self.comparison_tail(u)
        } else {
            Ok(u)
        }
    }

    fn comparison_tail(&mut self, acc: Expr) -> (r: Result<Expr, ViskumError>)
        ensures
            final(self).toks() == old(self).toks(),
            ({
                let (p_, e_, r_) = p_comparison_tail(
                    old(self).toks(),
                    old(self).pos(),
                    old(self).errs(),
                    acc.ast(),
                );
                final(self).pos() == p_ && final(self).errs() == e_ && expr_matches(r, r_)
            }),
        decreases rem(self.toks(), self.pos()), 11int,
    {
        if self.check(TokenType::Greater) || self.check(TokenType::GreaterEqual) || self.check(
            TokenType::Less,
        ) || self.check(TokenType::LessEqual) {
            let op = self.tok_here();
            let entry = self.current;
            self.bump();
            let right = match self.term() {
                Ok(x) => x,
                Err(er) => {
                    return Err(er);
                },
            };
            let acc2 = Expr::Binary(
                BinaryExpr { left: Box::new(acc), operator: op, right: Box::new(right) },
            );
            if self.current > entry {
                self.comparison_tail(acc2)
            } else {
                Ok(acc2)
            }
        } else {
            Ok(acc)
        }
    }

    /// An equality: comparisons joined by `== !=`.
    #[verifier::rlimit(60)]
    fn equality(&mut self) -> (r: Result<Expr, ViskumError>)
        ensures
            final(self).toks() == old(self).toks(),
            ({
                let (p_, e_, r_) = p_equality(old(self).toks(), old(self).pos(), old(self).errs());
                final(self).pos() == p_ && final(self).errs() == e_ && expr_matches(r, r_)
            }),
        decreases rem(self.toks(), self.pos()), 14int,
    {
        let entry = self.current;
        let u = match self.comparison() {
            Ok(u) => u,
            Err(er) => {
                return Err(er);
            },
        };
        if self.current >= entry {
            self.equality_tail(u)
        } else {
            Ok(u)
        }
    }

    fn equality_tail(&mut self, acc: Expr) -> (r: Result<Expr, ViskumError>)
        ensures
            final(self).toks() == old(self).toks(),
            ({
                let (p_, e_, r_) = p_equality_tail(
                    old(self).toks(),
                    old(self).pos(),
                    old(self).errs(),
                    acc.ast(),
                );
                final(self).pos() == p_ && final(self).errs() == e_ && expr_matches(r, r_)
            }),
        decreases rem(self.toks(), self.pos()), 13int,
    {
        if self.check(TokenType::BangEqual) || self.check(TokenType::EqualEqual) {
            let op = self.tok_here();
            let entry = self.current;
            self.bump();
            let right = match self.comparison() {
                Ok(x) => x,
                Err(er) => {
                    return Err(er);
                },
            };
            let acc2 = Expr::Binary(
                BinaryExpr { left: Box::new(acc), operator: op, right: Box::new(right) },
            );
            if self.current > entry {
                self.equality_tail(acc2)
            } else {
                Ok(acc2)
            }
        } else {
            Ok(acc)
        }
    }

    /// A ternary `? :` with right-leaning nesting.
    #[verifier::rlimit(100)]
    #[verifier::spinoff_prover]
    fn ternary(&mut self) -> (r: Result<Expr, ViskumError>)
        ensures
            final(self).toks() == old(self).toks(),
            ({
                let (p_, e_, r_) = p_ternary(old(self).toks(), old(self).pos(), old(self).errs());
                final(self).pos() == p_ && final(self).errs() == e_ && expr_matches(r, r_)
            }),
        decreases rem(self.toks(), self.pos()), 16int,
    {
        let entry = self.current;
        let c = match self.equality() {
            Ok(c) => c,
            Err(er) => {
                return Err(er);
            },
        };
        if self.check(TokenType::QuestionMark) && self.current >= entry {
            self.bump();
            let tv = match self.expression() {
                Ok(t) => t,
                Err(er) => {
                    return Err(er);
                },
            };
            if self.check(TokenType::Colon) && self.current >= entry {
                self.bump();
                let fv = match self.expression() {
                    Ok(f) => f,
                    Err(er) => {
                        return Err(er);
                    },
                };
                let ghost ca = c.ast();
                let ghost ta = tv.ast();
                let ghost fa = fv.ast();
                let node = Expr::Ternary(
                    TernaryExpr {
                        condition: Box::new(c),
                        true_expr: Box::new(tv),
                        false_expr: Box::new(fv),
                    },
                );
                proof {
                    assert(node.ast() == (SpecExpr::Ternary {
                        condition: Box::new(ca),
                        true_expr: Box::new(ta),
                        false_expr: Box::new(fa),
                    }));
                }
                Ok(node)
            } else {
                Err(self.error_here("Expected ':' in ternary expression"))
            }
        } else {
            Ok(c)
        }
    }

    /// A logical `or`/`and` whose right side parses at full precedence.
    fn logical(&mut self) -> (r: Result<Expr, ViskumError>)
        ensures
            final(self).toks() == old(self).toks(),
            ({
                let (p_, e_, r_) = p_logical(old(self).toks(), old(self).pos(), old(self).errs());
                final(self).pos() == p_ && final(self).errs() == e_ && expr_matches(r, r_)
            }),
        decreases rem(self.toks(), self.pos()), 18int,
    {
        let entry = self.current;
        let lhs = match self.ternary() {
            Ok(l) => l,
            Err(er) => {
                return Err(er);
            },
        };
        if (self.check(TokenType::Or) || self.check(TokenType::And)) && self.current >= entry {
            let op = self.tok_here();
            self.bump();
            let rhs = match self.expression() {
                Ok(x) => x,
                Err(er) => {
                    return Err(er);
                },
            };
            Ok(
                Expr::Logical(
                    LogicalExpr { left: Box::new(lhs), operator: op, right: Box::new(rhs) },
                ),
            )
        } else {
            Ok(lhs)
        }
    }

    /// An expression.
    pub fn expression(&mut self) -> (r: Result<Expr, ViskumError>)
        ensures
            final(self).toks() == old(self).toks(),
            ({
                let (p_, e_, r_) = p_expression(
                    old(self).toks(),
                    old(self).pos(),
                    old(self).errs(),
                );
                final(self).pos() == p_ && final(self).errs() == e_ && expr_matches(r, r_)
            }),
        decreases rem(self.toks(), self.pos()), 20int,
    {
        self.logical()
    }

    /// An assignment: a write where an assignment operator follows a
    /// variable; an invalid target records a diagnostic and yields the
    /// expression already parsed.
    pub fn assignment(&mut self) -> (r: Result<Expr, ViskumError>)
        ensures
            final(self).toks() == old(self).toks(),
            ({
                let (p_, e_, r_) = p_assignment(
                    old(self).toks(),
                    old(self).pos(),
                    old(self).errs(),
                );
                final(self).pos() == p_ && final(self).errs() == e_ && expr_matches(r, r_)
            }),
        decreases rem(self.toks(), self.pos()), 22int,
    {
        let entry = self.current;
        let expr = match self.expression() {
            Ok(e) => e,
            Err(er) => {
                return Err(er);
            },
        };
        let has_op = !self.is_at_end() && (self.check(TokenType::Equal) || self.check(
            TokenType::PlusEqual,
        ) || self.check(TokenType::MinusEqual) || self.check(TokenType::StarEqual) || self.check(
            TokenType::SlashEqual,
        ) || self.check(TokenType::PowerEqual) || self.check(TokenType::Increment) || self.check(
            TokenType::Decrement,
        ));
        if has_op {
            let atok = self.tok_here();
            match expr {
                Expr::Variable(var) => {
                    if atok.is(TokenType::Increment) || atok.is(TokenType::Decrement) {
                        self.bump();
                        Ok(
                            Expr::Assign(
                                AssignExpr {
                                    token: var.token.duplicate(),
                                    assignment_token: atok,
                                    value: Box::new(Expr::Variable(var)),
                                },
                            ),
                        )
                    } else if self.current >= entry {
                        self.bump();
                        let v = match self.expression() {
                            Ok(v) => v,
                            Err(er) => {
                                return Err(er);
                            },
                        };
                        Ok(
                            Expr::Assign(
                                AssignExpr {
                                    token: var.token,
                                    assignment_token: atok,
                                    value: Box::new(v),
                                },
                            ),
                        )
                    } else {
                        Ok(Expr::Variable(var))
                    }
                },
                _ => {
                    let mut msg = "Invalid assignment target at '".to_owned();
                    msg = strcat(msg, atok.lexeme.as_str());
                    msg = strcat(msg, "'");
                    let er = ViskumError::new_dynamic(msg, atok, "file.vs");
                    let ghost pre = self.errs();
                    let ghost em = er.model();
                    self.errors.push(er);
                    self.bump();
                    proof {
                        assert(self.errs() =~= pre.push(em));
                    }
                    Ok(expr)
                },
            }
        } else {
            Ok(expr)
        }
    }

    /// An expression statement.
    fn expression_statement(&mut self) -> (r: Result<Stmt, ViskumError>)
        ensures
            final(self).toks() == old(self).toks(),
            ({
                let (p_, e_, r_) = p_expression_statement(
                    old(self).toks(),
                    old(self).pos(),
                    old(self).errs(),
                );
                final(self).pos() == p_ && final(self).errs() == e_ && stmt_node_matches(r, r_)
            }),
        decreases rem(self.toks(), self.pos()), 23int,
    {
        let e = match self.assignment() {
            Ok(e) => e,
            Err(er) => {
                return Err(er);
            },
        };
        if self.check(TokenType::Semicolon) {
            self.bump();
            Ok(Stmt::Expression(ExpressionStmt { expression: e }))
        } else {
            Err(self.error_here("Expected ';' after expression"))
        }
    }

    /// A `print` statement, entered after its keyword.
    fn print_statement(&mut self) -> (r: Result<Stmt, ViskumError>)
        ensures
            final(self).toks() == old(self).toks(),
            ({
                let (p_, e_, r_) = p_print_statement(
                    old(self).toks(),
                    old(self).pos(),
                    old(self).errs(),
                );
                final(self).pos() == p_ && final(self).errs() == e_ && stmt_node_matches(r, r_)
            }),
        decreases rem(self.toks(), self.pos()), 23int,
    {
        let e = match self.expression() {
            Ok(e) => e,
            Err(er) => {
                return Err(er);
            },
        };
        if self.check(TokenType::Semicolon) {
            self.bump();
            Ok(Stmt::Print(PrintStmt { expression: e }))
        } else {
            Err(self.error_here("Expected ';' after expression"))
        }
    }

    /// A `return` statement, entered after its keyword.
    fn return_statement(&mut self, keyword: Token) -> (r: Result<Stmt, ViskumError>)
        ensures
            final(self).toks() == old(self).toks(),
            ({
                let (p_, e_, r_) = p_return_statement(
                    old(self).toks(),
                    old(self).pos(),
                    old(self).errs(),
                    keyword,
                );
                final(self).pos() == p_ && final(self).errs() == e_ && stmt_node_matches(r, r_)
            }),
        decreases rem(self.toks(), self.pos()), 23int,
    {
        let v = if !self.check(TokenType::Semicolon) {
            match self.expression() {
                Ok(e) => e,
                Err(er) => {
                    return Err(er);
                },
            }
        } else {
            Expr::Literal(LiteralExpr { value: Some(Literal::Null) })
        };
        if self.check(TokenType::Semicolon) {
            self.bump();
            Ok(Stmt::Return(ReturnStmt { keyword, value: Some(v) }))
        } else {
            Err(self.error_here("Expected ';' after return value"))
        }
    }

    /// A `let` declaration, entered after its keyword.
    fn variable_declaration(&mut self) -> (r: Result<Stmt, ViskumError>)
        ensures
            final(self).toks() == old(self).toks(),
            ({
                let (p_, e_, r_) = p_variable_declaration(
                    old(self).toks(),
                    old(self).pos(),
                    old(self).errs(),
                );
                final(self).pos() == p_ && final(self).errs() == e_ && stmt_node_matches(r, r_)
            }),
        decreases rem(self.toks(), self.pos()), 23int,
    {
        if !self.check(TokenType::Identifier) {
            return Err(self.error_here("Expected variable name"));
        }
        let name = self.tok_here();
        self.bump();
        let init = if self.check(TokenType::Equal) {
            self.bump();
            match self.expression() {
                Ok(e) => e,
                Err(er) => {
                    return Err(er);
                },
            }
        } else {
            Expr::Literal(LiteralExpr { value: Some(Literal::Null) })
        };
        if self.check(TokenType::Semicolon) {
            self.bump();
            Ok(Stmt::Let(LetStmt { token: name, initializer: init }))
        } else {
            Err(self.error_here("Expected ';' after variable declaration"))
        }
    }

    /// The parameter list of a function declaration.
    fn params_tail(&mut self, params: &mut Vec<Token>) -> (r: Result<(), ViskumError>)
        ensures
            final(self).toks() == old(self).toks(),
            ({
                let (p_, e_, r_) = p_params_tail(
                    old(self).toks(),
                    old(self).pos(),
                    old(self).errs(),
                    old(params)@,
                );
                final(self).pos() == p_ && final(self).errs() == e_ && match (r, r_) {
                    (Ok(_), Ok(ps)) => final(params)@ == ps,
                    (Err(e), Err(se)) => e.model() == se,
                    _ => false,
                }
            }),
        decreases rem(self.toks(), self.pos()), 23int,
    {
        if params.len() >= 255 {
            let er = self.error_here("Cannot have more than 255 parameters");
            let ghost pre = self.errs();
            let ghost em = er.model();
            self.errors.push(er);
            proof {
                assert(self.errs() =~= pre.push(em));
            }
        }
        if self.check(TokenType::Identifier) {
            let p = self.tok_here();
            self.bump();
            params.push(p);
            if self.check(TokenType::Comma) {
                self.bump();
                self.params_tail(params)
            } else {
                Ok(())
            }
        } else {
            Err(self.error_here("Expected parameter name"))
        }
    }

    /// A function declaration, entered after `fn`.
    #[verifier::rlimit(100)]
    fn function_declaration(&mut self) -> (r: Result<Stmt, ViskumError>)
        ensures
            final(self).toks() == old(self).toks(),
            ({
                let (p_, e_, r_) = p_function_declaration(
                    old(self).toks(),
                    old(self).pos(),
                    old(self).errs(),
                );
                final(self).pos() == p_ && final(self).errs() == e_ && stmt_node_matches(r, r_)
            }),
        decreases rem(self.toks(), self.pos()), 26int,
    {
        let entry = self.current;
        if !self.check(TokenType::Identifier) {
            return Err(self.error_here("Expected function name"));
        }
        let name = self.tok_here();
        self.bump();
        if !self.check(TokenType::LeftParen) {
            return Err(self.error_here("Expected '(' after function name"));
        }
        self.bump();
        let mut params: Vec<Token> = Vec::new();
        if !self.check(TokenType::RightParen) {
            match self.params_tail(&mut params) {
                Ok(_) => (),
                Err(er) => {
                    return Err(er);
                },
            }
        }
        if !self.check(TokenType::RightParen) {
            return Err(self.error_here("Expected ')' after function parameters"));
        }
        self.bump();
        if !self.check(TokenType::LeftBrace) {
            return Err(self.error_here("Expected '{' before function body"));
        }
        self.bump();
        if self.current > entry {
            let body = match self.block_list() {
                Ok(b) => b,
                Err(er) => {
                    return Err(er);
                },
            };
            let node = Stmt::Function(
                Rc::new(FunctionStmt { token: name, params, body }),
            );
            Ok(node)
        } else {
            Err(self.error_here("Expected '{' before function body"))
        }
    }

    /// The declarations of a block, up to its closing brace.
    fn block_list(&mut self) -> (r: Result<Vec<Stmt>, ViskumError>)
        ensures
            final(self).toks() == old(self).toks(),
            ({
                let (p_, e_, r_) = p_block(old(self).toks(), old(self).pos(), old(self).errs());
                final(self).pos() == p_ && final(self).errs() == e_ && match (r, r_) {
                    (Ok(ss), Ok(sss)) => stmts_ast(ss@) == sss,
                    (Err(e), Err(se)) => e.model() == se,
                    _ => false,
                }
            }),
        decreases rem(self.toks(), self.pos()), 29int,
    {
        let ghost toks0 = self.toks();
        let ghost pos0 = self.pos();
        let ghost errs0 = self.errs();
        let mut out: Vec<Stmt> = Vec::new();
        proof {
            assert(stmts_ast(out@) =~= Seq::<SpecStmt>::empty());
        }
        loop
            invariant
                self.toks() == toks0,
                toks0 == old(self).toks(),
                pos0 == old(self).pos(),
                errs0 == old(self).errs(),
                pos0 <= self.pos(),
                p_block_acc(toks0, pos0, errs0, Seq::empty()) == p_block_acc(
                    self.toks(),
                    self.pos(),
                    self.errs(),
                    stmts_ast(out@),
                ),
            decreases rem(self.toks(), self.pos()),
        {
            if !self.check(TokenType::RightBrace) && !self.is_at_end() {
                let entry = self.current;
                let s = match self.declaration() {
                    Ok(s) => s,
                    Err(er) => {
                        return Err(er);
                    },
                };
                if self.current > entry {
                    let ghost pre = out@;
                    out.push(s);
                    proof {
                        lemma_stmts_ast_push(pre, s);
                    }
                } else {
                    return Err(self.error_here("Expected '}' after block"));
                }
            } else {
                if self.check(TokenType::RightBrace) {
                    self.bump();
                    return Ok(out);
                } else {
                    return Err(self.error_here("Expected '}' after block"));
                }
            }
        }
    }

    /// A statement of any form, dispatched on its first token.
    fn statement(&mut self) -> (r: Result<Stmt, ViskumError>)
        ensures
            final(self).toks() == old(self).toks(),
            ({
                let (p_, e_, r_) = p_statement(old(self).toks(), old(self).pos(), old(self).errs());
                final(self).pos() == p_ && final(self).errs() == e_ && stmt_node_matches(r, r_)
            }),
        decreases rem(self.toks(), self.pos()), 24int,
    {
        if self.check(TokenType::While) {
            self.bump();
            self.while_statement()
        } else if self.check(TokenType::Loop) {
            self.bump();
            self.loop_statement()
        } else if self.check(TokenType::Break) || self.check(TokenType::Continue) {
            let keyword = self.tok_here();
            self.bump();
            if self.check(TokenType::Semicolon) {
                self.bump();
                Ok(Stmt::LoopControl(LoopControlStmt { keyword }))
            } else {
                Err(self.error_here("Expected ';' after loop control statement"))
            }
        } else if self.check(TokenType::If) {
            self.bump();
            self.if_statement()
        } else if self.check(TokenType::Print) {
            self.bump();
            self.print_statement()
        } else if self.check(TokenType::Return) {
            let keyword = self.tok_here();
            self.bump();
            self.return_statement(keyword)
        } else if self.check(TokenType::LeftBrace) {
            self.bump();
            let ss = match self.block_list() {
                Ok(ss) => ss,
                Err(er) => {
                    return Err(er);
                },
            };
            Ok(Stmt::Block(BlockStmt { statements: ss }))
        } else {
            self.expression_statement()
        }
    }

    /// An `if` statement, entered after its keyword.
    fn if_statement(&mut self) -> (r: Result<Stmt, ViskumError>)
        ensures
            final(self).toks() == old(self).toks(),
            ({
                let (p_, e_, r_) = p_if_statement(
                    old(self).toks(),
                    old(self).pos(),
                    old(self).errs(),
                );
                final(self).pos() == p_ && final(self).errs() == e_ && stmt_node_matches(r, r_)
            }),
        decreases rem(self.toks(), self.pos()), 25int,
    {
        let entry = self.current;
        let c = match self.expression() {
            Ok(c) => c,
            Err(er) => {
                return Err(er);
            },
        };
        if !self.check(TokenType::LeftBrace) {
            return Err(self.error_here("Expected '{' after condition"));
        }
        if self.current > entry {
            let th = match self.statement() {
                Ok(t) => t,
                Err(er) => {
                    return Err(er);
                },
            };
            if self.check(TokenType::Else) && self.current >= entry {
                self.bump();
                let el = match self.statement() {
                    Ok(e) => e,
                    Err(er) => {
                        return Err(er);
                    },
                };
                Ok(
                    Stmt::If(
                        IfStmt {
                            condition: c,
                            then_branch: Box::new(th),
                            else_branch: Some(Box::new(el)),
                        },
                    ),
                )
            } else {
                Ok(
                    Stmt::If(
                        IfStmt { condition: c, then_branch: Box::new(th), else_branch: None },
                    ),
                )
            }
        } else {
            Err(self.error_here("Expected '{' after condition"))
        }
    }

    /// A `while` statement, entered after its keyword.
    fn while_statement(&mut self) -> (r: Result<Stmt, ViskumError>)
        ensures
            final(self).toks() == old(self).toks(),
            ({
                let (p_, e_, r_) = p_while_statement(
                    old(self).toks(),
                    old(self).pos(),
                    old(self).errs(),
                );
                final(self).pos() == p_ && final(self).errs() == e_ && stmt_node_matches(r, r_)
            }),
        decreases rem(self.toks(), self.pos()), 25int,
    {
        let entry = self.current;
        let c = match self.expression() {
            Ok(c) => c,
            Err(er) => {
                return Err(er);
            },
        };
        if !self.check(TokenType::LeftBrace) {
            return Err(self.error_here("Expected '{' after condition"));
        }
        if self.current > entry {
            let b = match self.statement() {
                Ok(b) => b,
                Err(er) => {
                    return Err(er);
                },
            };
            Ok(Stmt::While(WhileStmt { condition: c, body: Box::new(b) }))
        } else {
            Err(self.error_here("Expected '{' after condition"))
        }
    }

    /// A `loop` statement, entered after its keyword.
    fn loop_statement(&mut self) -> (r: Result<Stmt, ViskumError>)
        ensures
            final(self).toks() == old(self).toks(),
            ({
                let (p_, e_, r_) = p_loop_statement(
                    old(self).toks(),
                    old(self).pos(),
                    old(self).errs(),
                );
                final(self).pos() == p_ && final(self).errs() == e_ && stmt_node_matches(r, r_)
            }),
        decreases rem(self.toks(), self.pos()), 25int,
    {
        if !self.check(TokenType::LeftBrace) {
            return Err(self.error_here("Expected '{' after loop keyword"));
        }
        let b = match self.statement() {
            Ok(b) => b,
            Err(er) => {
                return Err(er);
            },
        };
        Ok(Stmt::Loop(LoopStmt { body: Box::new(b) }))
    }

    /// A declaration: `let`, `fn`, or any other statement.
    fn declaration(&mut self) -> (r: Result<Stmt, ViskumError>)
        ensures
            final(self).toks() == old(self).toks(),
            ({
                let (p_, e_, r_) = p_declaration(
                    old(self).toks(),
                    old(self).pos(),
                    old(self).errs(),
                );
                final(self).pos() == p_ && final(self).errs() == e_ && stmt_node_matches(r, r_)
            }),
        decreases rem(self.toks(), self.pos()), 27int,
    {
        if self.check(TokenType::Let) {
            self.bump();
            self.variable_declaration()
        } else if self.check(TokenType::Fn) {
            self.bump();
            self.function_declaration()
        } else {
            self.statement()
        }
    }

    /// Discards tokens up to the next statement boundary after an error.
    fn synchronize(&mut self)
        ensures
            final(self).toks() == old(self).toks(),
            final(self).errs() == old(self).errs(),
            final(self).pos() == p_sync(old(self).toks(), adv(old(self).toks(), old(self).pos())),
    {
        if !self.is_at_end() {
            self.bump();
        }
        self.sync_scan()
    }

    fn sync_scan(&mut self)
        ensures
            final(self).toks() == old(self).toks(),
            final(self).errs() == old(self).errs(),
            final(self).pos() == p_sync(old(self).toks(), old(self).pos()),
        decreases rem(self.toks(), self.pos()),
    {
        if self.is_at_end() {
            return ;
        }
        if self.current >= 1 && self.current - 1 < self.tokens.len() {
            if self.tokens[self.current - 1].is(TokenType::Semicolon) {
                return ;
            }
        }
        if self.check(TokenType::Class) || self.check(TokenType::Fn) || self.check(
            TokenType::Let,
        ) || self.check(TokenType::For) || self.check(TokenType::If) || self.check(
            TokenType::While,
        ) || self.check(TokenType::Print) || self.check(TokenType::Return) {
            return ;
        }
        self.bump();
        self.sync_scan()
    }

    /// Parses the whole token sequence: the statements built; every
    /// diagnostic, syntactic recovery included, is left in the parser.
    pub fn parse(&mut self) -> (r: Vec<Stmt>)
        ensures
            final(self).toks() == old(self).toks(),
            ({
                let (ss, es) = p_program(
                    old(self).toks(),
                    old(self).pos(),
                    old(self).errs(),
                    Seq::empty(),
                );
                stmts_ast(r@) == ss && final(self).errs() == es
            }),
    {
        let ghost toks0 = self.toks();
        let ghost pos0 = self.pos();
        let ghost errs0 = self.errs();
        let mut out: Vec<Stmt> = Vec::new();
        proof {
            assert(stmts_ast(out@) =~= Seq::<SpecStmt>::empty());
        }
        loop
            invariant
                self.toks() == toks0,
                toks0 == old(self).toks(),
                pos0 == old(self).pos(),
                errs0 == old(self).errs(),
                p_program(toks0, pos0, errs0, Seq::empty()) == p_program(
                    self.toks(),
                    self.pos(),
                    self.errs(),
                    stmts_ast(out@),
                ),
            decreases rem(self.toks(), self.pos()),
        {
            if self.is_at_end() {
                return out;
            }
            let entry = self.current;
            match self.declaration() {
                Ok(s) => {
                    let ghost pre = out@;
                    out.push(s);
                    proof {
                        lemma_stmts_ast_push(pre, s);
                    }
                    if !(self.current > entry) {
                        return out;
                    }
                },
                Err(er) => {
                    let ghost preerrs = self.errs();
                    let ghost em = er.model();
                    self.errors.push(er);
                    proof {
                        assert(self.errs() =~= preerrs.push(em));
                    }
                    self.synchronize();
                    if !(self.current > entry) {
                        return out;
                    }
                },
            }
        }
    }
}

proof fn lemma_stmts_ast_push(ss: Seq<Stmt>, s: Stmt)
    ensures
        stmts_ast(ss.push(s)) == stmts_ast(ss).push(s.ast()),
    decreases ss.len(),
{
    let p = ss.push(s);
    assert(p.len() == ss.len() + 1);
    if ss.len() == 0 {
        assert(p[0] == s);
        assert(p.skip(1) =~= Seq::<Stmt>::empty());
        assert(stmts_ast(p.skip(1)) == Seq::<SpecStmt>::empty());
        assert(stmts_ast(p) == seq![s.ast()] + Seq::<SpecStmt>::empty());
        assert(seq![s.ast()] + Seq::<SpecStmt>::empty() =~= stmts_ast(ss).push(s.ast()));
    } else {
        assert(p[0] == ss[0]);
        assert(p.skip(1) =~= ss.skip(1).push(s));
        lemma_stmts_ast_push(ss.skip(1), s);
        assert(stmts_ast(p.skip(1)) == stmts_ast(ss.skip(1)).push(s.ast()));
        assert(stmts_ast(p) == seq![ss[0].ast()] + stmts_ast(ss.skip(1)).push(s.ast()));
        assert(stmts_ast(ss) == seq![ss[0].ast()] + stmts_ast(ss.skip(1)));
        assert(seq![ss[0].ast()] + stmts_ast(ss.skip(1)).push(s.ast()) =~= (seq![ss[0].ast()]
            + stmts_ast(ss.skip(1))).push(s.ast()));
    }
}

proof fn lemma_exprs_ast_len(es: Seq<Expr>)
    ensures
        crate::ast::exprs_ast(es).len() == es.len(),
    decreases es.len(),
{
    if es.len() > 0 {
        lemma_exprs_ast_len(es.skip(1));
    }
}

proof fn lemma_exprs_ast_push(es: Seq<Expr>, e: Expr)
    ensures
        crate::ast::exprs_ast(es.push(e)) == crate::ast::exprs_ast(es).push(e.ast()),
    decreases es.len(),
{
    let p = es.push(e);
    assert(p.len() == es.len() + 1);
    if es.len() == 0 {
        assert(p[0] == e);
        assert(p.skip(1) =~= Seq::<Expr>::empty());
        assert(crate::ast::exprs_ast(p.skip(1)) == Seq::<SpecExpr>::empty());
        assert(crate::ast::exprs_ast(p) == seq![e.ast()] + Seq::<SpecExpr>::empty());
        assert(seq![e.ast()] + Seq::<SpecExpr>::empty() =~= crate::ast::exprs_ast(es).push(
            e.ast(),
        ));
    } else {
        assert(p[0] == es[0]);
        assert(p.skip(1) =~= es.skip(1).push(e));
        lemma_exprs_ast_push(es.skip(1), e);
        assert(crate::ast::exprs_ast(p.skip(1)) == crate::ast::exprs_ast(es.skip(1)).push(
            e.ast(),
        ));
        assert(crate::ast::exprs_ast(p) == seq![es[0].ast()] + crate::ast::exprs_ast(
            es.skip(1),
        ).push(e.ast()));
        assert(crate::ast::exprs_ast(es) == seq![es[0].ast()] + crate::ast::exprs_ast(
            es.skip(1),
        ));
        assert(seq![es[0].ast()] + crate::ast::exprs_ast(es.skip(1)).push(e.ast()) =~= (
        seq![es[0].ast()] + crate::ast::exprs_ast(es.skip(1))).push(e.ast()));
    }
}

} // verus!
