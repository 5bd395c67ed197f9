//! The syntax tree: a closed set of expression variants and a closed set of
//! statement variants, each node plain data, built once by the parser and
//! never changed. Every traversal is an exhaustive match, so no variant can
//! be skipped silently.
use vstd::prelude::*;

use crate::token::Token;
use crate::value::Literal;

verus! {

/// An expression node.
#[derive(Debug)]
pub enum Expr {
    Binary(BinaryExpr),
    Grouping(GroupingExpr),
    Literal(LiteralExpr),
    Prefix(PrefixExpr),
    Postfix(PostfixExpr),
    Ternary(TernaryExpr),
    Variable(VariableExpr),
    Assign(AssignExpr),
    Logical(LogicalExpr),
    Call(CallExpr),
}

/// An infix operator applied to two operands.
#[derive(Debug)]
pub struct BinaryExpr {
    pub left: Box<Expr>,
    pub operator: Token,
    pub right: Box<Expr>,
}

/// A parenthesised expression.
#[derive(Debug)]
pub struct GroupingExpr {
    pub expression: Box<Expr>,
}

/// A literal value.
#[derive(Debug)]
pub struct LiteralExpr {
    pub value: Option<Literal>,
}

/// A prefix operator (`!` or `-`) applied to an operand.
#[derive(Debug)]
pub struct PrefixExpr {
    pub operator: Token,
    pub right: Box<Expr>,
}

/// A postfix operator (`!`, the factorial) applied to an operand.
#[derive(Debug)]
pub struct PostfixExpr {
    pub left: Box<Expr>,
    pub operator: Token,
}

/// A conditional `condition ? then : else` expression.
#[derive(Debug)]
pub struct TernaryExpr {
    pub condition: Box<Expr>,
    pub true_expr: Box<Expr>,
    pub false_expr: Box<Expr>,
}

/// A variable read.
#[derive(Debug)]
pub struct VariableExpr {
    pub token: Token,
}

/// An assignment to a variable, plain or compound; the assignment token
/// carries which operator is applied before writing back.
#[derive(Debug)]
pub struct AssignExpr {
    pub token: Token,
    pub assignment_token: Token,
    pub value: Box<Expr>,
}

/// A short-circuiting `and`/`or` expression.
#[derive(Debug)]
pub struct LogicalExpr {
    pub left: Box<Expr>,
    pub operator: Token,
    pub right: Box<Expr>,
}

/// A call with its argument list; the closing parenthesis locates
/// diagnostics.
#[derive(Debug)]
pub struct CallExpr {
    pub callee: Box<Expr>,
    pub paren: Token,
    pub arguments: Vec<Expr>,
}

/// A statement node.
#[derive(Debug)]
pub enum Stmt {
    Expression(ExpressionStmt),
    Print(PrintStmt),
    Let(LetStmt),
    Block(BlockStmt),
    If(IfStmt),
    While(WhileStmt),
    Loop(LoopStmt),
    LoopControl(LoopControlStmt),
    Function(std::rc::Rc<FunctionStmt>),
    Return(ReturnStmt),
}

/// An expression evaluated for its effect.
#[derive(Debug)]
pub struct ExpressionStmt {
    pub expression: Expr,
}

/// `print` of one expression: one output line per execution.
#[derive(Debug)]
pub struct PrintStmt {
    pub expression: Expr,
}

/// A `let` declaration, creating or shadowing a name in the current scope.
#[derive(Debug)]
pub struct LetStmt {
    pub token: Token,
    pub initializer: Expr,
}

/// A braced block with its own scope.
#[derive(Debug)]
pub struct BlockStmt {
    pub statements: Vec<Stmt>,
}

/// An `if` with an optional `else` branch.
#[derive(Debug)]
pub struct IfStmt {
    pub condition: Expr,
    pub then_branch: Box<Stmt>,
    pub else_branch: Option<Box<Stmt>>,
}

/// A `while` loop.
#[derive(Debug)]
pub struct WhileStmt {
    pub condition: Expr,
    pub body: Box<Stmt>,
}

/// An unconditional `loop`, left only by `break` or an error.
#[derive(Debug)]
pub struct LoopStmt {
    pub body: Box<Stmt>,
}

/// A `break` or `continue`; the keyword token says which.
#[derive(Debug)]
pub struct LoopControlStmt {
    pub keyword: Token,
}

/// A function declaration: name, parameters and body.
#[derive(Debug)]
pub struct FunctionStmt {
    pub token: Token,
    pub params: Vec<Token>,
    pub body: Vec<Stmt>,
}

/// A `return` with an optional value; the keyword token locates diagnostics.
#[derive(Debug)]
pub struct ReturnStmt {
    pub keyword: Token,
    pub value: Option<Expr>,
}

/// Ghost image of an expression node: the node's shape with every list a
/// sequence, so that a tree built by the parser can be stated in full.
pub enum SpecExpr {
    Binary { left: Box<SpecExpr>, operator: Token, right: Box<SpecExpr> },
    Grouping { expression: Box<SpecExpr> },
    Literal { value: Option<Literal> },
    Prefix { operator: Token, right: Box<SpecExpr> },
    Postfix { left: Box<SpecExpr>, operator: Token },
    Ternary { condition: Box<SpecExpr>, true_expr: Box<SpecExpr>, false_expr: Box<SpecExpr> },
    Variable { token: Token },
    Assign { token: Token, assignment_token: Token, value: Box<SpecExpr> },
    Logical { left: Box<SpecExpr>, operator: Token, right: Box<SpecExpr> },
    Call { callee: Box<SpecExpr>, paren: Token, arguments: Seq<SpecExpr> },
}

/// Ghost image of a function declaration.
pub struct SpecFnDecl {
    pub token: Token,
    pub params: Seq<Token>,
    pub body: Seq<SpecStmt>,
}

/// Ghost image of a statement node.
pub enum SpecStmt {
    Expression { expression: SpecExpr },
    Print { expression: SpecExpr },
    Let { token: Token, initializer: SpecExpr },
    Block { statements: Seq<SpecStmt> },
    If { condition: SpecExpr, then_branch: Box<SpecStmt>, else_branch: Option<Box<SpecStmt>> },
    While { condition: SpecExpr, body: Box<SpecStmt> },
    Loop { body: Box<SpecStmt> },
    LoopControl { keyword: Token },
    Function { decl: SpecFnDecl },
    Return { keyword: Token, value: Option<SpecExpr> },
}

impl Expr {
    /// Ghost image of this expression.
    pub open spec fn ast(&self) -> SpecExpr
        decreases *self,
    {
        match self {
            Expr::Binary(b) => SpecExpr::Binary {
                left: Box::new(b.left.ast()),
                operator: b.operator,
                right: Box::new(b.right.ast()),
            },
            Expr::Grouping(g) => SpecExpr::Grouping { expression: Box::new(g.expression.ast()) },
            Expr::Literal(l) => SpecExpr::Literal { value: l.value },
            Expr::Prefix(p) => SpecExpr::Prefix {
                operator: p.operator,
                right: Box::new(p.right.ast()),
            },
            Expr::Postfix(p) => SpecExpr::Postfix {
                left: Box::new(p.left.ast()),
                operator: p.operator,
            },
            Expr::Ternary(t) => SpecExpr::Ternary {
                condition: Box::new(t.condition.ast()),
                true_expr: Box::new(t.true_expr.ast()),
                false_expr: Box::new(t.false_expr.ast()),
            },
            Expr::Variable(v) => SpecExpr::Variable { token: v.token },
            Expr::Assign(a) => SpecExpr::Assign {
                token: a.token,
                assignment_token: a.assignment_token,
                value: Box::new(a.value.ast()),
            },
            Expr::Logical(l) => SpecExpr::Logical {
                left: Box::new(l.left.ast()),
                operator: l.operator,
                right: Box::new(l.right.ast()),
            },
            Expr::Call(c) => SpecExpr::Call {
                callee: Box::new(c.callee.ast()),
                paren: c.paren,
                arguments: exprs_ast(c.arguments@),
            },
        }
    }
}

/// Ghost images of a sequence of expressions, in order.
pub open spec fn exprs_ast(es: Seq<Expr>) -> Seq<SpecExpr>
    decreases es,
{
    if es.len() == 0 {
        Seq::empty()
    } else {
        seq![es[0].ast()] + exprs_ast(es.skip(1))
    }
}

impl Stmt {
    /// Ghost image of this statement.
    pub open spec fn ast(&self) -> SpecStmt
        decreases *self,
    {
        match self {
            Stmt::Expression(e) => SpecStmt::Expression { expression: e.expression.ast() },
            Stmt::Print(p) => SpecStmt::Print { expression: p.expression.ast() },
            Stmt::Let(l) => SpecStmt::Let { token: l.token, initializer: l.initializer.ast() },
            Stmt::Block(b) => SpecStmt::Block { statements: stmts_ast(b.statements@) },
            Stmt::If(i) => SpecStmt::If {
                condition: i.condition.ast(),
                then_branch: Box::new(i.then_branch.ast()),
                else_branch: match &i.else_branch {
                    Some(e) => Some(Box::new(e.ast())),
                    None => None,
                },
            },
            Stmt::While(w) => SpecStmt::While {
                condition: w.condition.ast(),
                body: Box::new(w.body.ast()),
            },
            Stmt::Loop(l) => SpecStmt::Loop { body: Box::new(l.body.ast()) },
            Stmt::LoopControl(lc) => SpecStmt::LoopControl { keyword: lc.keyword },
            Stmt::Function(f) => SpecStmt::Function {
                decl: SpecFnDecl {
                    token: f.token,
                    params: f.params@,
                    body: stmts_ast(f.body@),
                },
            },
            Stmt::Return(r) => SpecStmt::Return {
                keyword: r.keyword,
                value: match &r.value {
                    Some(e) => Some(e.ast()),
                    None => None,
                },
            },
        }
    }
}

/// Ghost images of a sequence of statements, in order.
pub open spec fn stmts_ast(ss: Seq<Stmt>) -> Seq<SpecStmt>
    decreases ss,
{
    if ss.len() == 0 {
        Seq::empty()
    } else {
        seq![ss[0].ast()] + stmts_ast(ss.skip(1))
    }
}

} // verus!
