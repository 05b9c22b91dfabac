//! What evaluation yields, given the host's answers to the number queries
//! made so far. Each rule takes the answers and the index of the next one
//! to use, and gives its outcome with the index after the answers it used.
//! A query with no fitting answer at that index ends the evaluation with
//! `Ask`.
use vstd::prelude::*;
use crate::ast::{Expr, Literal, Stmt};
use crate::token::{Token, TokenType};
use crate::error_reporter::report_text;
use crate::value::{AnswerView, ArithOp, CompareOp, EffectView, OutcomeView, QueryView, ValueView};

verus! {

pub const SIGN_BIT: u64 = 0x8000_0000_0000_0000;

pub const MAGNITUDE_BITS: u64 = 0x7fff_ffff_ffff_ffff;

/// IEEE-754 negation flips the sign bit and nothing else.
pub open spec fn negated(x: u64) -> u64 {
    x ^ SIGN_BIT
}

/// A binary64 value is zero, of either sign, when all bits but the sign
/// are clear.
pub open spec fn is_zero(x: u64) -> bool {
    x & MAGNITUDE_BITS == 0
}

pub open spec fn truth(b: bool) -> ValueView {
    if b { ValueView::True } else { ValueView::False }
}

/// `nil` and `false` are falsy; every other value is truthy.
pub open spec fn truthy(v: ValueView) -> bool {
    !(v is Nil || v is False)
}

pub open spec fn answer_number(ans: Seq<AnswerView>, k: nat, q: QueryView) -> (OutcomeView, nat) {
    if k < ans.len() && ans[k as int] is Number {
        (OutcomeView::Value(ValueView::Number(ans[k as int]->Number_0)), k + 1)
    } else {
        (OutcomeView::Ask(q), k)
    }
}

pub open spec fn answer_truth(ans: Seq<AnswerView>, k: nat, q: QueryView) -> Result<(bool, nat), QueryView> {
    if k < ans.len() && ans[k as int] is Truth {
        Ok((ans[k as int]->Truth_0, k + 1))
    } else {
        Err(q)
    }
}

/// The display text of a value.
pub open spec fn display(v: ValueView, ans: Seq<AnswerView>, k: nat) -> Result<(Seq<char>, nat), QueryView> {
    match v {
        ValueView::Nil => Ok(("nil"@, k)),
        ValueView::True => Ok(("true"@, k)),
        ValueView::False => Ok(("false"@, k)),
        ValueView::Str(s) => Ok((s, k)),
        ValueView::Number(x) => if k < ans.len() && ans[k as int] is Text {
            Ok((ans[k as int]->Text_0, k + 1))
        } else {
            Err(QueryView::Show(x))
        },
    }
}

/// Structural equality: values of different kinds are unequal, numbers are
/// compared by the host.
pub open spec fn equal(a: ValueView, b: ValueView, ans: Seq<AnswerView>, k: nat) -> Result<(bool, nat), QueryView> {
    match (a, b) {
        (ValueView::Number(x), ValueView::Number(y)) => answer_truth(ans, k, QueryView::Equal(x, y)),
        (ValueView::Nil, ValueView::Nil) => Ok((true, k)),
        (ValueView::True, ValueView::True) => Ok((true, k)),
        (ValueView::False, ValueView::False) => Ok((true, k)),
        (ValueView::Str(s), ValueView::Str(t)) => Ok((s == t, k)),
        _ => Ok((false, k)),
    }
}

pub open spec fn failure(m: Seq<char>, k: nat) -> (OutcomeView, nat) {
    (OutcomeView::Failure(m), k)
}

pub open spec fn ask(q: QueryView, k: nat) -> (OutcomeView, nat) {
    (OutcomeView::Ask(q), k)
}

pub open spec fn arithmetic(op: ArithOp, a: ValueView, b: ValueView, ans: Seq<AnswerView>, k: nat, message: Seq<char>) -> (OutcomeView, nat) {
    match (a, b) {
        (ValueView::Number(x), ValueView::Number(y)) => if op == ArithOp::Divide && is_zero(y) {
            failure("Division by zero."@, k)
        } else {
            answer_number(ans, k, QueryView::Arithmetic(op, x, y))
        },
        _ => failure(message, k),
    }
}

pub open spec fn compare(op: CompareOp, a: ValueView, b: ValueView, ans: Seq<AnswerView>, k: nat) -> (OutcomeView, nat) {
    match (a, b) {
        (ValueView::Number(x), ValueView::Number(y)) => match answer_truth(ans, k, QueryView::Compare(op, x, y)) {
            Ok((t, k1)) => (OutcomeView::Value(truth(t)), k1),
            Err(q) => ask(q, k),
        },
        _ => failure("Applying '>' operator to a non number."@, k),
    }
}

/// `+`: text when either side is text, a sum of two numbers, an error
/// otherwise.
pub open spec fn plus(a: ValueView, b: ValueView, ans: Seq<AnswerView>, k: nat) -> (OutcomeView, nat) {
    if a is Str || b is Str {
        match display(a, ans, k) {
            Err(q) => ask(q, k),
            Ok((da, k1)) => match display(b, ans, k1) {
                Err(q) => ask(q, k1),
                Ok((db, k2)) => (OutcomeView::Value(ValueView::Str(da + db)), k2),
            },
        }
    } else {
        arithmetic(ArithOp::Add, a, b, ans, k, "Applying '+' operator to a non number."@)
    }
}

/// A binary operator applied to the values of its operands.
pub open spec fn binary_value(operator: Token, a: ValueView, b: ValueView, ans: Seq<AnswerView>, k: nat) -> (OutcomeView, nat) {
    let t = operator.token_type;
    if t == TokenType::Plus {
        plus(a, b, ans, k)
    } else if t == TokenType::Minus {
        arithmetic(ArithOp::Subtract, a, b, ans, k, "Applying '-' operator to a non number."@)
    } else if t == TokenType::Star {
        arithmetic(ArithOp::Multiply, a, b, ans, k, "Applying '*' operator to a non number."@)
    } else if t == TokenType::Slash {
        arithmetic(ArithOp::Divide, a, b, ans, k, "Applying '/' operator to a non number."@)
    } else if t == TokenType::Greater {
        compare(CompareOp::Greater, a, b, ans, k)
    } else if t == TokenType::GreaterEqual {
        compare(CompareOp::GreaterEqual, a, b, ans, k)
    } else if t == TokenType::Less {
        compare(CompareOp::Less, a, b, ans, k)
    } else if t == TokenType::LessEqual {
        compare(CompareOp::LessEqual, a, b, ans, k)
    } else if t == TokenType::EqualEqual || t == TokenType::BangEqual {
        match equal(a, b, ans, k) {
            Ok((e, k1)) => (OutcomeView::Value(truth(if t == TokenType::EqualEqual { e } else { !e })), k1),
            Err(q) => ask(q, k),
        }
    } else {
        failure("Invalid binary operation: "@ + operator.lexeme@, k)
    }
}

/// A unary operator applied to the value of its operand: `-` negates a
/// number, `!` gives the operand's truthiness, any other operator leaves
/// the operand as it is.
pub open spec fn unary_value(operator: Token, v: ValueView, k: nat) -> (OutcomeView, nat) {
    if operator.token_type == TokenType::Minus {
        match v {
            ValueView::Number(x) => (OutcomeView::Value(ValueView::Number(negated(x))), k),
            _ => failure("Applying '-' operator to a non number."@, k),
        }
    } else if operator.token_type == TokenType::Bang {
        (OutcomeView::Value(truth(truthy(v))), k)
    } else {
        (OutcomeView::Value(v), k)
    }
}

pub open spec fn literal_value(l: Option<Literal>, ans: Seq<AnswerView>, k: nat) -> (OutcomeView, nat) {
    match l {
        None => (OutcomeView::Value(ValueView::Nil), k),
        Some(Literal::Nil) => (OutcomeView::Value(ValueView::Nil), k),
        Some(Literal::True) => (OutcomeView::Value(ValueView::True), k),
        Some(Literal::False) => (OutcomeView::Value(ValueView::False), k),
        Some(Literal::String(s)) => (OutcomeView::Value(ValueView::Str(s@)), k),
        Some(Literal::Number(t)) => answer_number(ans, k, QueryView::Parse(t@)),
    }
}

/// The outcome of evaluating `e`: operands left to right, every operand
/// of a binary operator before the operator, and only the chosen branch of
/// a conditional. An error or a query ends the evaluation.
pub open spec fn eval(e: Expr, ans: Seq<AnswerView>, k: nat) -> (OutcomeView, nat)
    decreases e,
{
    match e {
        Expr::Literal(l) => literal_value(l, ans, k),
        Expr::Grouping { expression } => eval(*expression, ans, k),
        Expr::Unary { operator, right } => {
            let (o, k1) = eval(*right, ans, k);
            match o {
                OutcomeView::Value(v) => unary_value(operator, v, k1),
                _ => (o, k1),
            }
        },
        Expr::Binary { left, operator, right } => {
            let (o1, k1) = eval(*left, ans, k);
            match o1 {
                OutcomeView::Value(a) => {
                    let (o2, k2) = eval(*right, ans, k1);
                    match o2 {
                        OutcomeView::Value(b) => binary_value(operator, a, b, ans, k2),
                        _ => (o2, k2),
                    }
                },
                _ => (o1, k1),
            }
        },
        Expr::Ternary { condition, then_branch, else_branch } => {
            let (o, k1) = eval(*condition, ans, k);
            match o {
                OutcomeView::Value(v) => if truthy(v) {
                    eval(*then_branch, ans, k1)
                } else {
                    eval(*else_branch, ans, k1)
                },
                _ => (o, k1),
            }
        },
    }
}

/// How running one statement ends.
pub enum StmtOutcome {
    Done(Option<EffectView>),
    Ask(QueryView),
}

/// Running one statement: its effect, if any, or a query.
pub open spec fn exec_stmt(s: Stmt, ans: Seq<AnswerView>, k: nat) -> (StmtOutcome, nat) {
    match s {
        Stmt::Expression(e) => match eval(e, ans, k) {
            (OutcomeView::Value(_), k1) => (StmtOutcome::Done(None), k1),
            (OutcomeView::Failure(m), k1) => (StmtOutcome::Done(Some(EffectView::Error(m))), k1),
            (OutcomeView::Ask(q), k1) => (StmtOutcome::Ask(q), k1),
        },
        Stmt::Print(e) => match eval(e, ans, k) {
            (OutcomeView::Value(v), k1) => match display(v, ans, k1) {
                Ok((t, k2)) => (StmtOutcome::Done(Some(EffectView::Print(t))), k2),
                Err(q) => (StmtOutcome::Ask(q), k1),
            },
            (OutcomeView::Failure(m), k1) => (StmtOutcome::Done(Some(EffectView::Error(m))), k1),
            (OutcomeView::Ask(q), k1) => (StmtOutcome::Ask(q), k1),
        },
        Stmt::Var { .. } => (StmtOutcome::Done(Some(EffectView::Error("Variable declarations are not supported."@))), k),
    }
}

pub open spec fn option_effects(o: Option<EffectView>) -> Seq<EffectView> {
    match o {
        Some(e) => seq![e],
        None => Seq::empty(),
    }
}

/// Running statements `i..` in order: an error ends only its own
/// statement; a query ends the run.
pub open spec fn run_from(stmts: Seq<Stmt>, i: int, ans: Seq<AnswerView>, k: nat) -> Result<Seq<EffectView>, QueryView>
    decreases stmts.len() - i,
{
    if i < 0 || i >= stmts.len() {
        Ok(Seq::empty())
    } else {
        match exec_stmt(stmts[i], ans, k) {
            (StmtOutcome::Ask(q), _) => Err(q),
            (StmtOutcome::Done(effect), k1) => match run_from(stmts, i + 1, ans, k1) {
                Ok(rest) => Ok(option_effects(effect) + rest),
                Err(q) => Err(q),
            },
        }
    }
}

/// The line an effect shows: a printed text as it stands, a runtime error
/// as a diagnostic on line 0.
pub open spec fn output_line(e: EffectView) -> Seq<char> {
    match e {
        EffectView::Print(t) => t,
        EffectView::Error(m) => report_text(0, Seq::empty(), m),
    }
}

/// The diagnostics of the runtime errors among `effects`, in order.
pub open spec fn error_reports(effects: Seq<EffectView>) -> Seq<Seq<char>>
    decreases effects.len(),
{
    if effects.len() == 0 {
        Seq::empty()
    } else {
        error_reports(effects.drop_last()) + match effects.last() {
            EffectView::Error(m) => seq![report_text(0, Seq::empty(), m)],
            EffectView::Print(_) => Seq::empty(),
        }
    }
}

} // verus!
