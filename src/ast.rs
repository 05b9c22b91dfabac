use vstd::prelude::*;
use crate::token::Token;

verus! {

/// A literal as written in the source. A number keeps its digits: the
/// evaluator turns them into a number value.
#[derive(Clone, Debug)]
pub enum Literal {
    Nil,
    True,
    False,
    Number(String),
    String(String),
}

/// An expression tree; each node owns its children.
#[derive(Debug)]
pub enum Expr {
    Literal(Option<Literal>),
    Binary { left: Box<Expr>, operator: Token, right: Box<Expr> },
    Grouping { expression: Box<Expr> },
    Unary { operator: Token, right: Box<Expr> },
    Ternary { condition: Box<Expr>, then_branch: Box<Expr>, else_branch: Box<Expr> },
}

/// A statement of a program.
#[derive(Debug)]
pub enum Stmt {
    /// Evaluate and discard.
    Expression(Expr),
    /// Evaluate and show the value.
    Print(Expr),
    /// A variable declaration; the evaluator has no bindings and refuses it.
    Var { name: Token, initializer: Option<Expr> },
}

} // verus!
