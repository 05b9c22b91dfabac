use vstd::prelude::*;
use vstd::string::StringExecFns;
use crate::ast::{Expr, Literal};

verus! {

pub open spec fn show_literal(l: Option<Literal>) -> Seq<char> {
    match l {
        None => "nil"@,
        Some(Literal::Nil) => "nil"@,
        Some(Literal::True) => "true"@,
        Some(Literal::False) => "false"@,
        Some(Literal::Number(t)) => t@,
        Some(Literal::String(t)) => t@,
    }
}

pub open spec fn paren1(name: Seq<char>, a: Seq<char>) -> Seq<char> {
    "("@ + name + " "@ + a + ")"@
}

pub open spec fn paren2(name: Seq<char>, a: Seq<char>, b: Seq<char>) -> Seq<char> {
    "("@ + name + " "@ + a + " "@ + b + ")"@
}

/// The fully parenthesized form of an expression, operators first:
/// `-123 * (45.67)` shows as `(* (- 123) (group 45.67))`. A number literal
/// shows as its source digits (`1.50` stays `1.50`), not as the shortest
/// form of the number it denotes.
pub open spec fn show(e: Expr) -> Seq<char>
    decreases e,
{
    match e {
        Expr::Literal(l) => show_literal(l),
        Expr::Binary { left, operator, right } => paren2(operator.lexeme@, show(*left), show(*right)),
        Expr::Grouping { expression } => paren1("group"@, show(*expression)),
        Expr::Unary { operator, right } => paren1(operator.lexeme@, show(*right)),
        Expr::Ternary { condition, then_branch, else_branch } => "(if "@ + show(*condition)
            + " then "@ + show(*then_branch) + " else "@ + show(*else_branch) + ")"@,
    }
}

/// Renders expression trees as text, for inspection and tests.
pub struct AstPrinter;

impl AstPrinter {
    pub fn new() -> (r: AstPrinter) {
        AstPrinter
    }

    pub fn print(&self, expr: &Expr) -> (r: String)
        ensures
            r@ == show(*expr),
        decreases expr,
    {
        match expr {
            Expr::Literal(value) => self.visit_literal(value),
            Expr::Binary { left, operator, right } => {
                let l = self.print(left);
                let r = self.print(right);
                self.parenthesize(operator.lexeme.as_str(), l.as_str(), Some(r.as_str()))
            },
            Expr::Grouping { expression } => {
                let inner = self.print(expression);
                self.parenthesize("group", inner.as_str(), None)
            },
            Expr::Unary { operator, right } => {
                let r = self.print(right);
                self.parenthesize(operator.lexeme.as_str(), r.as_str(), None)
            },
            Expr::Ternary { condition, then_branch, else_branch } => {
                let mut result = String::from_str("(if ");
                result.append(self.print(condition).as_str());
                result.append(" then ");
                result.append(self.print(then_branch).as_str());
                result.append(" else ");
                result.append(self.print(else_branch).as_str());
                result.append(")");
                result
            },
        }
    }

    /// `(name a)`, or `(name a b)` with a second part.
    fn parenthesize(&self, name: &str, first: &str, second: Option<&str>) -> (r: String)
        ensures
            r@ == match second {
                None => paren1(name@, first@),
                Some(b) => paren2(name@, first@, b@),
            },
    {
        let mut result = String::from_str("(");
        result.append(name);
        result.append(" ");
        result.append(first);
        match second {
            Some(b) => {
                result.append(" ");
                result.append(b);
            },
            None => {},
        }
        result.append(")");
        result
    }

    fn visit_literal(&self, value: &Option<Literal>) -> (r: String)
        ensures
            r@ == show_literal(*value),
    {
        match value {
            None => String::from_str("nil"),
            Some(Literal::Nil) => String::from_str("nil"),
            Some(Literal::True) => String::from_str("true"),
            Some(Literal::False) => String::from_str("false"),
            Some(Literal::Number(t)) => t.clone(),
            Some(Literal::String(t)) => t.clone(),
        }
    }
}

} // verus!
