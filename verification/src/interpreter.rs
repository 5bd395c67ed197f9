//! The tree-walking evaluator. It owns the scope arena and the output
//! lines, and every entry point returns exactly what the big-step semantics
//! in `semantics` says: the same value or diagnostic, the same scopes, the
//! same output. A fuel bound is spent once per loop iteration and per call.
use vstd::prelude::*;

use crate::ast::{Expr, FunctionStmt, LoopStmt, Stmt, WhileStmt};
use crate::binary_ops::{
    division, exponential, greater, greater_equal, is_equal, less, less_equal, minus,
    multiplication, outcome_matches, plus,
};
use crate::environment::{
    arena_model, assoc_set, env_assign, env_define, env_get, get_globals, lemma_wf_push,
    lemma_wf_same_parents, wf_arena, Environment, EnvironmentValue, SpecScope,
};
use crate::error::{AbortReason, SpecAbort, SpecErr, ViskumError};
use crate::numeric::{num_add, num_factorial, num_from_int, num_neg};
use crate::semantics::{
    bind_eq, bind_params, call_user, diag_at, display_of, eval_assign, eval_expr, eval_exprs,
    exec_loop, exec_stmt, exec_stmts, exec_while, interpret_spec, SpecState,
};
use crate::strings::{dec_string, strcat};
use crate::token::{Token, TokenType};
use crate::value::{truthy, Callable, CallableKind, Literal, SpecCallKind, SpecVal, ViskumFunction};
use std::rc::Rc;

verus! {

/// The evaluator's state: the scope arena, the index of the current scope,
/// and the lines printed so far.
pub struct Interpreter {
    scopes: Vec<Environment>,
    env: usize,
    output: Vec<String>,
}

/// An executable statement outcome agrees with a spec outcome.
pub open spec fn stmt_matches(r: Result<(), ViskumError>, out: Option<SpecErr>) -> bool {
    match (r, out) {
        (Ok(_), None) => true,
        (Err(e), Some(se)) => e.model() == se,
        _ => false,
    }
}

impl Interpreter {
    /// Ghost image of the evaluator's state.
    pub closed spec fn st(&self) -> SpecState {
        SpecState {
            envs: arena_model(self.scopes@),
            cur: self.env as int,
            output: self.output@.map(|i: int, s: String| s@),
        }
    }

    /// The arena is acyclic and the current scope lies inside it.
    pub closed spec fn wf(&self) -> bool {
        &&& wf_arena(arena_model(self.scopes@))
        &&& (self.env as int) < self.scopes@.len()
    }

    /// A fresh evaluator whose only scope is the root scope of globals.
    pub fn new() -> (r: Interpreter)
        ensures
            r.wf(),
            r.st().envs.len() == 1,
            r.st().envs[0] == get_globals_scope(),
            r.st().cur == 0,
            r.st().output == Seq::<Seq<char>>::empty(),
    {
        let mut scopes: Vec<Environment> = Vec::new();
        scopes.push(get_globals());
        let r = Interpreter { scopes, env: 0, output: Vec::new() };
        proof {
            assert(arena_model(r.scopes@) =~= seq![r.scopes@[0].model()]);
            assert(r.st().output =~= Seq::<Seq<char>>::empty());
        }
        r
    }

    /// The lines printed so far, in order.
    pub fn output(&self) -> (r: &Vec<String>)
        ensures
            r@.map(|i: int, s: String| s@) == self.st().output,
    {
        &self.output
    }

    /// Truthiness of a value: `false`, `null` and numeric zero are falsy;
    /// everything else, the empty string included, is truthy.
    pub fn is_truthy(&self, literal: &Literal) -> (r: bool)
        ensures
            r == truthy(literal.model()),
    {
        match literal {
            Literal::Bool(b) => *b,
            Literal::Null => false,
            Literal::Num(x) => !crate::numeric::is_zero(*x),
            _ => true,
        }
    }

    /// Reads a name through the scope chain from the current scope.
    pub fn environment_get(&self, token: &Token) -> (r: Result<Literal, ViskumError>)
        requires
            self.wf(),
        ensures
            match crate::environment::lookup(self.st().envs, self.st().cur, token@.lexeme) {
                Some(v) => r matches Ok(x) && x.model() == v,
                None => r matches Err(e) && e.model() == diag_at(
                    crate::environment::undefined_variable_msg(token@.lexeme),
                    token@,
                ),
            },
    {
        env_get(&self.scopes, self.env, token)
    }

    /// Binds a name in the current scope alone.
    pub fn environment_define(&mut self, token: &Token, environment_value: EnvironmentValue) -> (r:
        Result<Literal, ViskumError>)
        requires
            old(self).wf(),
        ensures
            final(self).wf(),
            final(self).st().envs.len() >= old(self).st().envs.len(),
            final(self).st() == (SpecState {
                envs: old(self).st().envs.update(
                    old(self).st().cur,
                    SpecScope {
                        vals: assoc_set(
                            old(self).st().envs[old(self).st().cur].vals,
                            token@.lexeme,
                            environment_value.model(),
                        ),
                        parent: old(self).st().envs[old(self).st().cur].parent,
                    },
                ),
                ..old(self).st()
            }),
            r matches Ok(v) && v.model() == environment_value.model(),
    {
        let r = env_define(&mut self.scopes, self.env, token, environment_value);
        proof {
            lemma_wf_same_parents(arena_model(old(self).scopes@), arena_model(self.scopes@));
            assert(final(self).st() =~= (SpecState {
                envs: old(self).st().envs.update(
                    old(self).st().cur,
                    SpecScope {
                        vals: assoc_set(
                            old(self).st().envs[old(self).st().cur].vals,
                            token@.lexeme,
                            environment_value.model(),
                        ),
                        parent: old(self).st().envs[old(self).st().cur].parent,
                    },
                ),
                ..old(self).st()
            }));
        }
        r
    }

    /// Assigns to a name through the scope chain from the current scope.
    pub fn environment_assign(&mut self, token: &Token, environment_value: EnvironmentValue) -> (r:
        Result<Literal, ViskumError>)
        requires
            old(self).wf(),
        ensures
            final(self).wf(),
            final(self).st().envs.len() >= old(self).st().envs.len(),
            ({
                let (st_, r_) = crate::semantics::finish_assign(
                    old(self).st(),
                    token@,
                    environment_value.model(),
                );
                final(self).st() == st_ && outcome_matches(r, r_)
            }),
    {
        let r = env_assign(&mut self.scopes, self.env, token, environment_value);
        proof {
            lemma_wf_same_parents(arena_model(old(self).scopes@), arena_model(self.scopes@));
            assert(final(self).st().output =~= old(self).st().output);
        }
        r
    }

    /// Evaluates an expression, with the state change and outcome of
    /// `eval_expr`.
    pub fn evaluate(&mut self, expr: &Expr, fuel: u64) -> (r: Result<Literal, ViskumError>)
        requires
            old(self).wf(),
        ensures
            final(self).wf(),
            final(self).st().envs.len() >= old(self).st().envs.len(),
            ({
                let (st_, r_) = eval_expr(fuel as nat, *expr, old(self).st());
                final(self).st() == st_ && outcome_matches(r, r_)
            }),
        decreases fuel, *expr, 0int,
    {
        match expr {
            Expr::Literal(l) => match &l.value {
                Some(v) => Ok(v.duplicate()),
                None => Ok(Literal::Null),
            },
            Expr::Grouping(g) => self.evaluate(&g.expression, fuel),
            Expr::Variable(v) => self.environment_get(&v.token),
            Expr::Binary(b) => {
                let lv = match self.evaluate(&b.left, fuel) {
                    Ok(v) => v,
                    Err(e) => {
                        return Err(e);
                    },
                };
                let rv = match self.evaluate(&b.right, fuel) {
                    Ok(v) => v,
                    Err(e) => {
                        return Err(e);
                    },
                };
                match b.operator.ttype {
                    TokenType::EqualEqual => Ok(Literal::Bool(is_equal(&lv, &rv))),
                    TokenType::BangEqual => Ok(Literal::Bool(!is_equal(&lv, &rv))),
                    TokenType::Greater => greater(&lv, &rv),
                    TokenType::GreaterEqual => greater_equal(&lv, &rv),
                    TokenType::Less => less(&lv, &rv),
                    TokenType::LessEqual => less_equal(&lv, &rv),
                    TokenType::Minus => minus(&lv, &rv),
                    TokenType::Plus => plus(&lv, &rv),
                    TokenType::Slash => division(&lv, &rv),
                    TokenType::Star => multiplication(&lv, &rv),
                    TokenType::Power => exponential(&lv, &rv),
                    _ => Ok(Literal::Null),
                }
            },
            Expr::Prefix(p) => {
                let rv = match self.evaluate(&p.right, fuel) {
                    Ok(v) => v,
                    Err(e) => {
                        return Err(e);
                    },
                };
                match p.operator.ttype {
                    TokenType::Minus => match &rv {
                        Literal::Num(x) => Ok(Literal::Num(num_neg(*x))),
                        _ => {
                            let mut msg = "'".to_owned();
                            msg = strcat(msg, p.operator.lexeme.as_str());
                            msg = strcat(msg, "' cannot negate a ");
                            let kn = rv.to_type_string();
                            msg = strcat(msg, kn.as_str());
                            Err(ViskumError::new_dynamic(msg, p.operator.duplicate(), "file.vs"))
                        },
                    },
                    TokenType::Bang => Ok(Literal::Bool(!self.is_truthy(&rv))),
                    _ => {
                        let mut msg = "Invalid prefix: ".to_owned();
                        msg = strcat(msg, p.operator.lexeme.as_str());
                        Err(ViskumError::new_dynamic(msg, p.operator.duplicate(), "file.vs"))
                    },
                }
            },
            Expr::Postfix(p) => {
                let lv = match self.evaluate(&p.left, fuel) {
                    Ok(v) => v,
                    Err(e) => {
                        return Err(e);
                    },
                };
                match p.operator.ttype {
                    TokenType::Factorial => match &lv {
                        Literal::Num(x) => match num_factorial(*x) {
                            Some(b) => Ok(Literal::Num(b)),
                            None => Err(
                                ViskumError::new(
                                    "'!' requires an integral number",
                                    p.operator.duplicate(),
                                    "file.vs",
                                ),
                            ),
                        },
                        _ => {
                            let mut msg = p.operator.lexeme.clone();
                            msg = strcat(msg, " is not defined for ");
                            let kn = lv.to_type_string();
                            msg = strcat(msg, kn.as_str());
                            Err(ViskumError::new_dynamic(msg, p.operator.duplicate(), "file.vs"))
                        },
                    },
                    _ => {
                        let mut msg = "Invalid postfix: ".to_owned();
                        msg = strcat(msg, p.operator.lexeme.as_str());
                        Err(ViskumError::new_dynamic(msg, p.operator.duplicate(), "file.vs"))
                    },
                }
            },
            Expr::Ternary(t) => {
                let cv = match self.evaluate(&t.condition, fuel) {
                    Ok(v) => v,
                    Err(e) => {
                        return Err(e);
                    },
                };
                if self.is_truthy(&cv) {
                    self.evaluate(&t.true_expr, fuel)
                } else {
                    self.evaluate(&t.false_expr, fuel)
                }
            },
            Expr::Logical(l) => {
                let lv = match self.evaluate(&l.left, fuel) {
                    Ok(v) => v,
                    Err(e) => {
                        return Err(e);
                    },
                };
                match l.operator.ttype {
                    TokenType::Or => {
                        if self.is_truthy(&lv) {
                            Ok(lv)
                        } else {
                            self.evaluate(&l.right, fuel)
                        }
                    },
                    TokenType::And => {
                        if self.is_truthy(&lv) {
                            self.evaluate(&l.right, fuel)
                        } else {
                            Ok(lv)
                        }
                    },
                    _ => {
                        let mut msg = "Invalid logical operator: ".to_owned();
                        msg = strcat(msg, l.operator.lexeme.as_str());
                        Err(ViskumError::new_dynamic(msg, l.operator.duplicate(), "file.vs"))
                    },
                }
            },
            Expr::Assign(a) => self.eval_assignment(a.token.duplicate(), &a.assignment_token, &a.value, fuel),
            Expr::Call(c) => {
                let fv = match self.evaluate(&c.callee, fuel) {
                    Ok(v) => v,
                    Err(e) => {
                        return Err(e);
                    },
                };
                let args = match self.evaluate_args(&c.arguments, fuel) {
                    Ok(v) => v,
                    Err(e) => {
                        return Err(e);
                    },
                };
                match fv {
                    Literal::Func(func) => {
                        if args.len() != func.arity {
                            let mut msg = "Expected ".to_owned();
                            let en = dec_string(func.arity as u64);
                            msg = strcat(msg, en.as_str());
                            msg = strcat(msg, " arguments but received ");
                            let an = dec_string(args.len() as u64);
                            msg = strcat(msg, an.as_str());
                            Err(ViskumError::new_dynamic(msg, c.paren.duplicate(), "file.vs"))
                        } else if fuel == 0 {
                            Err(
                                ViskumError::new(
                                    "evaluation budget exhausted",
                                    Token::invalid(None),
                                    "file.vs",
                                ),
                            )
                        } else {
                            match func.kind {
                                CallableKind::Native => Ok(Literal::Num(num_from_int(0))),
                                CallableKind::User(f) => self.call_user_function(
                                    &f.declaration,
                                    f.closure,
                                    args,
                                    fuel - 1,
                                ),
                            }
                        }
                    },
                    _ => {
                        let mut msg = "A ".to_owned();
                        let kn = fv.to_type_string();
                        msg = strcat(msg, kn.as_str());
                        msg = strcat(msg, " is not callable");
                        Err(ViskumError::new_dynamic(msg, c.paren.duplicate(), "file.vs"))
                    },
                }
            },
        }
    }

    /// Evaluates an argument list left to right.
    fn evaluate_args(&mut self, es: &Vec<Expr>, fuel: u64) -> (r: Result<Vec<Literal>, ViskumError>)
        requires
            old(self).wf(),
        ensures
            final(self).wf(),
            final(self).st().envs.len() >= old(self).st().envs.len(),
            ({
                let (st_, r_) = eval_exprs(fuel as nat, es@, old(self).st());
                final(self).st() == st_ && match (r, r_) {
                    (Ok(vs), Ok(svs)) => vs@.map(|i: int, v: Literal| v.model()) == svs,
                    (Err(e), Err(se)) => e.model() == se,
                    _ => false,
                }
            }),
        decreases fuel, es@, 1int,
    {
        let ghost st0 = self.st();
        let mut out: Vec<Literal> = Vec::new();
        let mut i: usize = 0;
        proof {
            assert(out@.map(|k: int, v: Literal| v.model()) =~= Seq::<SpecVal>::empty());
            assert(es@.skip(0) =~= es@);
            assert(Seq::<SpecVal>::empty() + eval_exprs_ok_tail(fuel as nat, es@, st0)
                =~= eval_exprs_ok_tail(fuel as nat, es@, st0));
        }
        while i < es.len()
            invariant
                self.wf(),
                st0 == old(self).st(),
                self.st().envs.len() >= st0.envs.len(),
                i <= es@.len(),
                ({
                    let (st_, r_) = eval_exprs(fuel as nat, es@, st0);
                    let (sti_, ri_) = eval_exprs(fuel as nat, es@.skip(i as int), self.st());
                    st_ == sti_ && (match (ri_, r_) {
                        (Ok(tail), Ok(full)) => full == out@.map(|k: int, v: Literal| v.model())
                            + tail,
                        (Err(e1), Err(e2)) => e1 == e2,
                        _ => false,
                    })
                }),
            decreases es@.len() - i,
        {
            let ghost pre = self.st();
            let ghost outpre = out@;
            let v = match self.evaluate(&es[i], fuel) {
                Ok(v) => v,
                Err(e) => {
                    proof {
                        assert(es@.skip(i as int)[0] == es@[i as int]);
                    }
                    return Err(e);
                },
            };
            out.push(v);
            i = i + 1;
            proof {
                assert(es@.skip(i - 1)[0] == es@[i - 1]);
                assert(es@.skip(i - 1).skip(1) =~= es@.skip(i as int));
                assert(out@.map(|k: int, v: Literal| v.model()) =~= outpre.map(
                    |k: int, v: Literal| v.model(),
                ).push(out@.last().model()));
                assert(outpre.map(|k: int, v: Literal| v.model()).push(out@.last().model())
                    + eval_exprs_ok_tail(fuel as nat, es@.skip(i as int), self.st()) =~= outpre.map(
                    |k: int, v: Literal| v.model(),
                ) + (seq![out@.last().model()] + eval_exprs_ok_tail(
                    fuel as nat,
                    es@.skip(i as int),
                    self.st(),
                )));
            }
        }
        proof {
            assert(es@.skip(i as int) =~= Seq::<Expr>::empty());
        }
        Ok(out)
    }

    /// Runs a program function: binds the parameters in a fresh scope under
    /// the captured closure scope, executes the body, and converts the
    /// body's outcome as `call_user` says.
    fn call_user_function(
        &mut self,
        declaration: &Rc<FunctionStmt>,
        closure: usize,
        args: Vec<Literal>,
        fuel: u64,
    ) -> (r: Result<Literal, ViskumError>)
        requires
            old(self).wf(),
        ensures
            final(self).wf(),
            final(self).st().envs.len() >= old(self).st().envs.len(),
            ({
                let (st_, r_) = call_user(
                    fuel as nat,
                    **declaration,
                    closure as int,
                    args@.map(|i: int, v: Literal| v.model()),
                    old(self).st(),
                );
                final(self).st() == st_ && outcome_matches(r, r_)
            }),
        decreases fuel, **declaration, 3int,
    {
        if closure >= self.scopes.len() {
            return Err(
                ViskumError::new(
                    "Internal error: A function's scope is gone",
                    declaration.token.duplicate(),
                    "file.vs",
                ),
            );
        }
        let ghost st0 = self.st();
        let mut entry = Environment::new_with_enclosing(closure);
        let mut i: usize = 0;
        proof {
            assert(entry.model().vals =~= bind_eq(
                declaration.params@.map(|k: int, t: Token| t@.lexeme).take(0),
                args@.map(|k: int, v: Literal| v.model()).take(0),
            ));
        }
        while i < declaration.params.len() && i < args.len()
            invariant
                i <= declaration.params@.len(),
                i <= args@.len(),
                entry.model().parent == Some(closure as int),
                entry.model().vals == bind_eq(
                    declaration.params@.map(|k: int, t: Token| t@.lexeme).take(i as int),
                    args@.map(|k: int, v: Literal| v.model()).take(i as int),
                ),
            decreases declaration.params@.len() - i,
        {
            let ghost names = declaration.params@.map(|k: int, t: Token| t@.lexeme);
            let ghost vals = args@.map(|k: int, v: Literal| v.model());
            let _ = entry.define(
                &declaration.params[i],
                EnvironmentValue::new(args[i].duplicate(), false),
            );
            i = i + 1;
            proof {
                assert(names.take(i as int).drop_last() =~= names.take(i - 1));
                assert(vals.take(i as int).drop_last() =~= vals.take(i - 1));
                assert(names.take(i as int).last() == names[i - 1]);
                assert(vals.take(i as int).last() == vals[i - 1]);
            }
        }
        proof {
            let names = declaration.params@.map(|k: int, t: Token| t@.lexeme);
            let vals = args@.map(|k: int, v: Literal| v.model());
            let n = if names.len() <= vals.len() { names.len() as int } else { vals.len() as int };
            assert(i == n);
            assert(entry.model().vals == bind_params(names, vals));
        }
        let entry_index = self.scopes.len();
        let prev = self.env;
        let ghost entry_scope = entry.model();
        self.scopes.push(entry);
        self.env = entry_index;
        proof {
            assert(arena_model(self.scopes@) =~= arena_model(old(self).scopes@).push(entry_scope));
            lemma_wf_push(arena_model(old(self).scopes@), entry_scope);
        }
        let body_result = self.execute_statements(&declaration.body, fuel);
        self.env = prev;
        proof {
            let (st1_, out_) = exec_stmts(
                fuel as nat,
                declaration.body@,
                SpecState {
                    envs: st0.envs.push(
                        SpecScope {
                            vals: bind_params(
                                declaration.params@.map(|k: int, t: Token| t@.lexeme),
                                args@.map(|k: int, v: Literal| v.model()),
                            ),
                            parent: Some(closure as int),
                        },
                    ),
                    cur: st0.envs.len() as int,
                    ..st0
                },
            );
            assert(self.st() =~= (SpecState { cur: st0.cur, ..st1_ }));
        }
        match body_result {
            Ok(_) => Ok(Literal::Null),
            Err(e) => {
                match e.get_abort_value() {
                    Some(value) => Ok(value),
                    None => {
                        if e.is_abort_error(&AbortReason::Break) || e.is_abort_error(
                            &AbortReason::Continue,
                        ) {
                            Err(e.without_abort())
                        } else {
                            Err(e)
                        }
                    },
                }
            },
        }
    }

    /// Executes one statement, with the state change and outcome of
    /// `exec_stmt`.
    pub fn execute(&mut self, stmt: &Stmt, fuel: u64) -> (r: Result<(), ViskumError>)
        requires
            old(self).wf(),
        ensures
            final(self).wf(),
            final(self).st().envs.len() >= old(self).st().envs.len(),
            ({
                let (st_, out_) = exec_stmt(fuel as nat, *stmt, old(self).st());
                final(self).st() == st_ && stmt_matches(r, out_)
            }),
        decreases fuel, *stmt, 0int,
    {
        match stmt {
            Stmt::Expression(e) => {
                match self.evaluate(&e.expression, fuel) {
                    Ok(_) => Ok(()),
                    Err(er) => Err(er),
                }
            },
            Stmt::Print(p) => {
                match self.evaluate(&p.expression, fuel) {
                    Ok(v) => {
                        let ghost pre = self.st();
                        let line = v.to_display_string();
                        self.output.push(line);
                        proof {
                            assert(self.st().output =~= pre.output.push(display_of(v.model())));
                            assert(self.st() =~= (SpecState {
                                output: pre.output.push(display_of(v.model())),
                                ..pre
                            }));
                        }
                        Ok(())
                    },
                    Err(er) => Err(er),
                }
            },
            Stmt::Let(l) => {
                match self.evaluate(&l.initializer, fuel) {
                    Ok(v) => {
                        let _ = self.environment_define(&l.token, EnvironmentValue::new(v, false));
                        Ok(())
                    },
                    Err(er) => Err(er),
                }
            },
            Stmt::Block(b) => {
                let entry = Environment::new_with_enclosing(self.env);
                self.execute_block(&b.statements, entry, fuel)
            },
            Stmt::If(i) => {
                let cv = match self.evaluate(&i.condition, fuel) {
                    Ok(v) => v,
                    Err(er) => {
                        return Err(er);
                    },
                };
                if self.is_truthy(&cv) {
                    self.execute(&i.then_branch, fuel)
                } else {
                    match &i.else_branch {
                        Some(e) => self.execute(e, fuel),
                        None => Ok(()),
                    }
                }
            },
            Stmt::While(w) => self.execute_while(w, fuel),
            Stmt::Loop(l) => self.execute_loop(l, fuel),
            Stmt::LoopControl(lc) => {
                match lc.keyword.ttype {
                    TokenType::Break => Err(
                        ViskumError::new_with_abort(
                            "Unexpected break statement: Must be inside of a loop",
                            lc.keyword.duplicate(),
                            "file.vs",
                            AbortReason::Break,
                        ),
                    ),
                    TokenType::Continue => Err(
                        ViskumError::new_with_abort(
                            "Unexpected continue statement: Must be inside of a loop",
                            lc.keyword.duplicate(),
                            "file.vs",
                            AbortReason::Continue,
                        ),
                    ),
                    _ => {
                        let mut msg = "Unknown loop keyword: '".to_owned();
                        msg = strcat(msg, lc.keyword.lexeme.as_str());
                        msg = strcat(msg, "'");
                        Err(ViskumError::new_dynamic(msg, lc.keyword.duplicate(), "file.vs"))
                    },
                }
            },
            Stmt::Function(f) => {
                let arity = f.params.len();
                let declaration = f.clone();
                let func = Literal::Func(
                    Callable {
                        arity,
                        kind: CallableKind::User(
                            ViskumFunction { declaration, closure: self.env },
                        ),
                    },
                );
                let _ = self.environment_define(&f.token, EnvironmentValue::new(func, false));
                Ok(())
            },
            Stmt::Return(r) => {
                let value = match &r.value {
                    Some(e) => match self.evaluate(e, fuel) {
                        Ok(v) => v,
                        Err(er) => {
                            return Err(er);
                        },
                    },
                    None => Literal::Null,
                };
                Err(
                    ViskumError::new_with_abort(
                        "Unexpected return statement: Must be inside of a function",
                        r.keyword.duplicate(),
                        "file.vs",
                        AbortReason::Return(value),
                    ),
                )
            },
        }
    }

    /// Executes statements in order until one ends in a diagnostic or
    /// signal.
    fn execute_statements(&mut self, statements: &Vec<Stmt>, fuel: u64) -> (r: Result<
        (),
        ViskumError,
    >)
        requires
            old(self).wf(),
        ensures
            final(self).wf(),
            final(self).st().envs.len() >= old(self).st().envs.len(),
            ({
                let (st_, out_) = exec_stmts(fuel as nat, statements@, old(self).st());
                final(self).st() == st_ && stmt_matches(r, out_)
            }),
        decreases fuel, statements@, 1int,
    {
        let ghost st0 = self.st();
        let mut i: usize = 0;
        proof {
            assert(statements@.skip(0) =~= statements@);
        }
        while i < statements.len()
            invariant
                self.wf(),
                st0 == old(self).st(),
                self.st().envs.len() >= st0.envs.len(),
                i <= statements@.len(),
                ({
                    let (st_, out_) = exec_stmts(fuel as nat, statements@, st0);
                    let (sti_, outi_) = exec_stmts(
                        fuel as nat,
                        statements@.skip(i as int),
                        self.st(),
                    );
                    st_ == sti_ && out_ == outi_
                }),
            decreases statements@.len() - i,
        {
            proof {
                assert(statements@.skip(i as int)[0] == statements@[i as int]);
                assert(statements@.skip(i as int).skip(1) =~= statements@.skip(i + 1));
            }
            match self.execute(&statements[i], fuel) {
                Ok(_) => (),
                Err(e) => {
                    return Err(e);
                },
            }
            i = i + 1;
        }
        proof {
            assert(statements@.skip(i as int) =~= Seq::<Stmt>::empty());
        }
        Ok(())
    }

    /// Runs statements in the given scope: the scope joins the arena, the
    /// statements execute in it, and the previously current scope is
    /// restored on every exit path.
    pub fn execute_block(&mut self, statements: &Vec<Stmt>, environment: Environment, fuel: u64) -> (r: Result<(), ViskumError>)
        requires
            old(self).wf(),
            environment.model().parent == Some(old(self).st().cur),
            environment.model().vals == Seq::<(Seq<char>, SpecVal)>::empty(),
        ensures
            final(self).wf(),
            final(self).st().envs.len() >= old(self).st().envs.len(),
            ({
                let inner = SpecState {
                    envs: old(self).st().envs.push(
                        SpecScope { vals: Seq::empty(), parent: Some(old(self).st().cur) },
                    ),
                    cur: old(self).st().envs.len() as int,
                    ..old(self).st()
                };
                let (st_, out_) = exec_stmts(fuel as nat, statements@, inner);
                final(self).st() == (SpecState { cur: old(self).st().cur, ..st_ })
                    && stmt_matches(r, out_)
            }),
        decreases fuel, statements@, 2int,
    {
        let prev = self.env;
        let entry_index = self.scopes.len();
        let ghost entry_scope = environment.model();
        self.scopes.push(environment);
        self.env = entry_index;
        proof {
            assert(arena_model(self.scopes@) =~= arena_model(old(self).scopes@).push(entry_scope));
            lemma_wf_push(arena_model(old(self).scopes@), entry_scope);
            assert(self.st() =~= (SpecState {
                envs: old(self).st().envs.push(
                    SpecScope { vals: Seq::empty(), parent: Some(old(self).st().cur) },
                ),
                cur: old(self).st().envs.len() as int,
                ..old(self).st()
            }));
        }
        let r = self.execute_statements(statements, fuel);
        self.env = prev;
        proof {
            let inner = SpecState {
                envs: old(self).st().envs.push(
                    SpecScope { vals: Seq::empty(), parent: Some(old(self).st().cur) },
                ),
                cur: old(self).st().envs.len() as int,
                ..old(self).st()
            };
            let (st_, out_) = exec_stmts(fuel as nat, statements@, inner);
            assert(self.st() =~= (SpecState { cur: old(self).st().cur, ..st_ }));
        }
        r
    }

    /// Runs a `while` loop, spending one unit of fuel per iteration.
    fn execute_while(&mut self, w: &WhileStmt, fuel: u64) -> (r: Result<(), ViskumError>)
        requires
            old(self).wf(),
        ensures
            final(self).wf(),
            final(self).st().envs.len() >= old(self).st().envs.len(),
            ({
                let (st_, out_) = exec_while(fuel as nat, *w, old(self).st());
                final(self).st() == st_ && stmt_matches(r, out_)
            }),
        decreases fuel, *w, 2int,
    {
        let ghost st0 = self.st();
        let mut f: u64 = fuel;
        loop
            invariant
                self.wf(),
                st0 == old(self).st(),
                self.st().envs.len() >= st0.envs.len(),
                f <= fuel,
                exec_while(fuel as nat, *w, st0) == exec_while(f as nat, *w, self.st()),
            decreases f,
        {
            if f == 0 {
                return Err(
                    ViskumError::new(
                        "evaluation budget exhausted",
                        Token::invalid(None),
                        "file.vs",
                    ),
                );
            }
            let cv = match self.evaluate(&w.condition, f) {
                Ok(v) => v,
                Err(e) => {
                    return Err(e);
                },
            };
            if !self.is_truthy(&cv) {
                return Ok(());
            }
            match self.execute(&w.body, f) {
                Ok(_) => (),
                Err(e) => {
                    if e.is_abort_error(&AbortReason::Break) {
                        return Ok(());
                    } else if e.is_abort_error(&AbortReason::Continue) {
                        // fall through to the next iteration
                    } else {
                        return Err(e);
                    }
                },
            }
            f = f - 1;
        }
    }

    /// Runs an unconditional `loop`, spending one unit of fuel per
    /// iteration.
    fn execute_loop(&mut self, l: &LoopStmt, fuel: u64) -> (r: Result<(), ViskumError>)
        requires
            old(self).wf(),
        ensures
            final(self).wf(),
            final(self).st().envs.len() >= old(self).st().envs.len(),
            ({
                let (st_, out_) = exec_loop(fuel as nat, *l, old(self).st());
                final(self).st() == st_ && stmt_matches(r, out_)
            }),
        decreases fuel, *l, 2int,
    {
        let ghost st0 = self.st();
        let mut f: u64 = fuel;
        loop
            invariant
                self.wf(),
                st0 == old(self).st(),
                self.st().envs.len() >= st0.envs.len(),
                f <= fuel,
                exec_loop(fuel as nat, *l, st0) == exec_loop(f as nat, *l, self.st()),
            decreases f,
        {
            if f == 0 {
                return Err(
                    ViskumError::new(
                        "evaluation budget exhausted",
                        Token::invalid(None),
                        "file.vs",
                    ),
                );
            }
            match self.execute(&l.body, f) {
                Ok(_) => (),
                Err(e) => {
                    if e.is_abort_error(&AbortReason::Break) {
                        return Ok(());
                    } else if e.is_abort_error(&AbortReason::Continue) {
                        // fall through to the next iteration
                    } else {
                        return Err(e);
                    }
                },
            }
            f = f - 1;
        }
    }

    /// Evaluates an assignment as `eval_assign` says: the current value is
    /// read first, the operator the assignment token names is applied, and
    /// the result is written back through the scope chain.
    fn eval_assignment(&mut self, target: Token, assignment: &Token, value: &Expr, fuel: u64) -> (r:
        Result<Literal, ViskumError>)
        requires
            old(self).wf(),
        ensures
            final(self).wf(),
            final(self).st().envs.len() >= old(self).st().envs.len(),
            ({
                let (st_, r_) = eval_assign(fuel as nat, target@, assignment@, *value, old(self).st());
                final(self).st() == st_ && outcome_matches(r, r_)
            }),
        decreases fuel, *value, 2int,
    {
        match assignment.ttype {
            TokenType::Equal | TokenType::PlusEqual | TokenType::MinusEqual | TokenType::StarEqual
                | TokenType::SlashEqual | TokenType::PowerEqual => {
                let left = match self.environment_get(&target) {
                    Ok(v) => v,
                    Err(e) => {
                        return Err(e);
                    },
                };
                let right = match self.evaluate(value, fuel) {
                    Ok(v) => v,
                    Err(e) => {
                        return Err(e);
                    },
                };
                let applied = match assignment.ttype {
                    TokenType::Equal => Ok(right),
                    TokenType::PlusEqual => plus(&left, &right),
                    TokenType::MinusEqual => minus(&left, &right),
                    TokenType::StarEqual => multiplication(&left, &right),
                    TokenType::SlashEqual => division(&left, &right),
                    _ => exponential(&left, &right),
                };
                let nv = match applied {
                    Ok(v) => v,
                    Err(e) => {
                        return Err(e);
                    },
                };
                self.environment_assign(&target, EnvironmentValue::new(nv, false))
            },
            TokenType::Increment | TokenType::Decrement => {
                let left = match self.environment_get(&target) {
                    Ok(v) => v,
                    Err(e) => {
                        return Err(e);
                    },
                };
                match &left {
                    Literal::Num(x) => {
                        let adjusted = if assignment.ttype == TokenType::Increment {
                            num_add(*x, num_from_int(1))
                        } else {
                            num_add(*x, num_neg(num_from_int(1)))
                        };
                        self.environment_assign(
                            &target,
                            EnvironmentValue::new(Literal::Num(adjusted), false),
                        )
                    },
                    _ => {
                        let mut msg = assignment.lexeme.clone();
                        msg = strcat(msg, " is not defined for ");
                        let kn = left.to_type_string();
                        msg = strcat(msg, kn.as_str());
                        Err(ViskumError::new_dynamic(msg, assignment.duplicate(), "file.vs"))
                    },
                }
            },
            _ => {
                let mut msg = "Invalid assignment: ".to_owned();
                msg = strcat(msg, assignment.lexeme.as_str());
                Err(ViskumError::new_dynamic(msg, assignment.duplicate(), "file.vs"))
            },
        }
    }

    /// Runs a program: statements execute in order and the first diagnostic
    /// or signal stops the run and is returned, as `interpret_spec` says.
    pub fn interpret(&mut self, statements: &Vec<Stmt>, fuel: u64) -> (r: Option<ViskumError>)
        requires
            old(self).wf(),
        ensures
            final(self).wf(),
            final(self).st().envs.len() >= old(self).st().envs.len(),
            ({
                let (st_, out_) = interpret_spec(fuel as nat, statements@, old(self).st());
                final(self).st() == st_ && match (r, out_) {
                    (None, None) => true,
                    (Some(e), Some(se)) => e.model() == se,
                    _ => false,
                }
            }),
    {
        match self.execute_statements(statements, fuel) {
            Ok(_) => None,
            Err(e) => Some(e),
        }
    }
}

/// The model of the root scope that `get_globals` builds.
pub open spec fn get_globals_scope() -> SpecScope {
    SpecScope {
        vals: assoc_set(
            assoc_set(
                Seq::<(Seq<char>, SpecVal)>::empty(),
                "time"@,
                SpecVal::Func(
                    crate::value::SpecCallable { arity: 0, kind: SpecCallKind::Native },
                ),
            ),
            "new_print"@,
            SpecVal::Func(crate::value::SpecCallable { arity: 0, kind: SpecCallKind::Native }),
        ),
        parent: None,
    }
}

/// The tail of values an argument list evaluates to when it succeeds.
pub open spec fn eval_exprs_ok_tail(fuel: nat, es: Seq<Expr>, st: SpecState) -> Seq<SpecVal> {
    match eval_exprs(fuel, es, st).1 {
        Ok(vs) => vs,
        Err(_) => Seq::empty(),
    }
}

} // verus!
