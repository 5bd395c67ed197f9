//! The printing traversal of the syntax tree: an S-expression rendering,
//! the second traversal beside evaluation, specified over the same ghost
//! tree the parser's contract speaks of.
use vstd::prelude::*;

use crate::ast::{Expr, SpecExpr};
use crate::semantics::display_of;
use crate::strings::strcat;
use crate::value::Literal;

verus! {

/// The rendering of an expression: operators parenthesise their operands,
/// a grouping shows as `(group …)`, a ternary names its three parts, a
/// variable shows as its name, and a literal as its display text.
pub open spec fn render_spec(e: SpecExpr) -> Seq<char>
    decreases e,
{
    match e {
        SpecExpr::Binary { left, operator, right } => "("@ + operator@.lexeme + " "@ + render_spec(
            *left,
        ) + " "@ + render_spec(*right) + ")"@,
        SpecExpr::Grouping { expression } => "(group "@ + render_spec(*expression) + ")"@,
        SpecExpr::Literal { value } => match value {
            Some(v) => display_of(v.model()),
            None => "null"@,
        },
        SpecExpr::Prefix { operator, right } => "("@ + operator@.lexeme + " "@ + render_spec(
            *right,
        ) + ")"@,
        SpecExpr::Postfix { left, operator } => "("@ + render_spec(*left) + " "@
            + operator@.lexeme + ")"@,
        SpecExpr::Ternary { condition, true_expr, false_expr } => "(condition "@ + render_spec(
            *condition,
        ) + " (if_true "@ + render_spec(*true_expr) + ") (if_false "@ + render_spec(*false_expr)
            + "))"@,
        SpecExpr::Variable { token } => token@.lexeme,
        SpecExpr::Assign { token, assignment_token, value } => "("@ + assignment_token@.lexeme
            + " "@ + token@.lexeme + " "@ + render_spec(*value) + ")"@,
        SpecExpr::Logical { left, operator, right } => "("@ + operator@.lexeme + " "@
            + render_spec(*left) + " "@ + render_spec(*right) + ")"@,
        SpecExpr::Call { callee, paren, arguments } => "(call "@ + render_spec(*callee)
            + render_args(arguments) + ")"@,
    }
}

/// The rendering of an argument list, each argument led by a space.
pub open spec fn render_args(args: Seq<SpecExpr>) -> Seq<char>
    decreases args,
{
    if args.len() == 0 {
        Seq::empty()
    } else {
        " "@ + render_spec(args[0]) + render_args(args.skip(1))
    }
}

/// Structural size of an expression, the measure the rendering recursion
/// shrinks.
pub open spec fn esize(e: Expr) -> nat
    decreases e,
{
    match e {
        Expr::Binary(b) => 1 + esize(*b.left) + esize(*b.right),
        Expr::Grouping(g) => 1 + esize(*g.expression),
        Expr::Literal(_) => 1,
        Expr::Prefix(p) => 1 + esize(*p.right),
        Expr::Postfix(p) => 1 + esize(*p.left),
        Expr::Ternary(t) => 1 + esize(*t.condition) + esize(*t.true_expr) + esize(*t.false_expr),
        Expr::Variable(_) => 1,
        Expr::Assign(a) => 1 + esize(*a.value),
        Expr::Logical(l) => 1 + esize(*l.left) + esize(*l.right),
        Expr::Call(c) => 1 + esize(*c.callee) + esizes(c.arguments@),
    }
}

/// Combined size of a sequence of expressions.
pub open spec fn esizes(s: Seq<Expr>) -> nat
    decreases s,
{
    if s.len() == 0 {
        0
    } else {
        esize(s[0]) + esizes(s.skip(1))
    }
}

proof fn lemma_esizes_elem(s: Seq<Expr>, i: int)
    requires
        0 <= i < s.len(),
    ensures
        esize(s[i]) <= esizes(s),
    decreases s.len(),
{
    if i > 0 {
        lemma_esizes_elem(s.skip(1), i - 1);
        assert(s.skip(1)[i - 1] == s[i]);
    }
}

/// The printing traversal over expressions.
pub struct AstPrinter;

impl AstPrinter {
    /// Renders an expression as its S-expression text.
    pub fn render(&self, expr: &Expr) -> (r: String)
        ensures
            r@ == render_spec(expr.ast()),
        decreases esize(*expr),
    {
        match expr {
            Expr::Binary(b) => {
                let mut out = "(".to_owned();
                out = strcat(out, b.operator.lexeme.as_str());
                out = strcat(out, " ");
                let l = self.render(&b.left);
                out = strcat(out, l.as_str());
                out = strcat(out, " ");
                let rr = self.render(&b.right);
                out = strcat(out, rr.as_str());
                out = strcat(out, ")");
                out
            },
            Expr::Grouping(g) => {
                let mut out = "(group ".to_owned();
                let inner = self.render(&g.expression);
                out = strcat(out, inner.as_str());
                out = strcat(out, ")");
                out
            },
            Expr::Literal(l) => match &l.value {
                Some(v) => v.to_display_string(),
                None => "null".to_owned(),
            },
            Expr::Prefix(p) => {
                let mut out = "(".to_owned();
                out = strcat(out, p.operator.lexeme.as_str());
                out = strcat(out, " ");
                let rr = self.render(&p.right);
                out = strcat(out, rr.as_str());
                out = strcat(out, ")");
                out
            },
            Expr::Postfix(p) => {
                let mut out = "(".to_owned();
                let l = self.render(&p.left);
                out = strcat(out, l.as_str());
                out = strcat(out, " ");
                out = strcat(out, p.operator.lexeme.as_str());
                out = strcat(out, ")");
                out
            },
            Expr::Ternary(t) => {
                let mut out = "(condition ".to_owned();
                let c = self.render(&t.condition);
                out = strcat(out, c.as_str());
                out = strcat(out, " (if_true ");
                let tv = self.render(&t.true_expr);
                out = strcat(out, tv.as_str());
                out = strcat(out, ") (if_false ");
                let fv = self.render(&t.false_expr);
                out = strcat(out, fv.as_str());
                out = strcat(out, "))");
                out
            },
            Expr::Variable(v) => v.token.lexeme.clone(),
            Expr::Assign(a) => {
                let mut out = "(".to_owned();
                out = strcat(out, a.assignment_token.lexeme.as_str());
                out = strcat(out, " ");
                out = strcat(out, a.token.lexeme.as_str());
                out = strcat(out, " ");
                let v = self.render(&a.value);
                out = strcat(out, v.as_str());
                out = strcat(out, ")");
                out
            },
            Expr::Logical(l) => {
                let mut out = "(".to_owned();
                out = strcat(out, l.operator.lexeme.as_str());
                out = strcat(out, " ");
                let a = self.render(&l.left);
                out = strcat(out, a.as_str());
                out = strcat(out, " ");
                let b = self.render(&l.right);
                out = strcat(out, b.as_str());
                out = strcat(out, ")");
                out
            },
            Expr::Call(c) => {
                let mut out = "(call ".to_owned();
                let callee = self.render(&c.callee);
                out = strcat(out, callee.as_str());
                let mut i: usize = 0;
                proof {
                    assert(c.arguments@.skip(0) =~= c.arguments@);
                }
                while i < c.arguments.len()
                    invariant
                        i <= c.arguments@.len(),
                        esizes(c.arguments@) < esize(*expr),
                        out@ + render_args(crate::ast::exprs_ast(c.arguments@.skip(i as int)))
                            == "(call "@ + render_spec(c.callee.ast()) + render_args(
                            crate::ast::exprs_ast(c.arguments@),
                        ),
                    decreases c.arguments@.len() - i,
                {
                    let ghost argsq = c.arguments@;
                    let ghost pre = out@;
                    proof {
                        lemma_esizes_elem(c.arguments@, i as int);
                    }
                    let a = self.render(&c.arguments[i]);
                    out = strcat(out, " ");
                    out = strcat(out, a.as_str());
                    proof {
                        let tail = crate::ast::exprs_ast(argsq.skip(i as int));
                        assert(argsq.skip(i as int)[0] == argsq[i as int]);
                        assert(tail == seq![argsq[i as int].ast()] + crate::ast::exprs_ast(
                            argsq.skip(i as int).skip(1),
                        ));
                        assert(argsq.skip(i as int).skip(1) =~= argsq.skip(i + 1));
                        assert(tail[0] == argsq[i as int].ast());
                        assert(tail.skip(1) =~= crate::ast::exprs_ast(argsq.skip(i + 1)));
                        assert(render_args(tail) == " "@ + render_spec(tail[0]) + render_args(
                            tail.skip(1),
                        ));
                        assert(out@ == pre + " "@ + a@);
                        assert(pre + (" "@ + render_spec(argsq[i as int].ast()) + render_args(
                            crate::ast::exprs_ast(argsq.skip(i + 1)),
                        )) =~= (pre + " "@ + render_spec(argsq[i as int].ast())) + render_args(
                            crate::ast::exprs_ast(argsq.skip(i + 1)),
                        ));
                        assert(" "@ + render_spec(tail[0]) + render_args(tail.skip(1)) =~= " "@ + (
                        render_spec(tail[0]) + render_args(tail.skip(1))));
                        assert(" "@ + render_spec(argsq[i as int].ast()) + render_args(
                            crate::ast::exprs_ast(argsq.skip(i + 1)),
                        ) =~= " "@ + (render_spec(argsq[i as int].ast()) + render_args(
                            crate::ast::exprs_ast(argsq.skip(i + 1)),
                        )));
                    }
                    i = i + 1;
                }
                proof {
                    assert(c.arguments@.skip(i as int) =~= Seq::<Expr>::empty());
                    assert(crate::ast::exprs_ast(Seq::<Expr>::empty()) == Seq::<SpecExpr>::empty());
                    assert(render_args(Seq::<SpecExpr>::empty()) == Seq::<char>::empty());
                    assert(out@ + Seq::<char>::empty() =~= out@);
                }
                out = strcat(out, ")");
                out
            },
        }
    }
}

} // verus!
