use vstd::prelude::*;
use vstd::string::StringExecFns;
use crate::ast::{Expr, Literal, Stmt};
use crate::error_reporter::ErrorReporter;
use crate::semantics::{
    error_reports, output_line, answer_number, answer_truth, arithmetic, compare, display, equal,
    eval, exec_stmt, literal_value, option_effects, plus, run_from, truth, truthy, StmtOutcome,
    MAGNITUDE_BITS, SIGN_BIT,
};
use crate::token::TokenType;
use crate::value::{
    answer_views, effect_views, ArithOp, CompareOp, Effect, EffectView, Evaluation, NumberAnswer,
    NumberQuery, Run, Value,
};

verus! {

/// Walks expression trees and statements. Floating-point work is asked of
/// the host: a run that needs a number not among `answers` ends with
/// `Ask`, and the host runs it again with the answer appended.
pub struct Interpreter;

impl Interpreter {
    pub fn new() -> (r: Interpreter) {
        Interpreter
    }

    /// Evaluates one expression.
    pub fn evaluate(&self, expr: &Expr, answers: &Vec<NumberAnswer>) -> (r: Evaluation)
        ensures
            r@ == eval(*expr, answer_views(answers@), 0).0,
    {
        self.evaluate_at(expr, answers, 0).0
    }

    /// Runs statements in order and collects what they print and the
    /// runtime errors they meet; an error abandons only its own statement.
    pub fn interpret(&self, statements: &Vec<Stmt>, answers: &Vec<NumberAnswer>) -> (r: Run)
        ensures
            match run_from(statements@, 0, answer_views(answers@), 0) {
                Ok(effects) => r is Done && effect_views(r->Done_0@) == effects,
                Err(q) => r is Ask && r->Ask_0@ == q,
            },
    {
        let ghost ans = answer_views(answers@);
        let mut effects: Vec<Effect> = Vec::new();
        let mut i: usize = 0;
        let mut k: usize = 0;
        while i < statements.len()
            invariant
                i <= statements@.len(),
                k <= answers@.len(),
                ans == answer_views(answers@),
                run_from(statements@, 0, ans, 0) == match run_from(statements@, i as int, ans, k as nat) {
                    Ok(rest) => Ok(effect_views(effects@) + rest),
                    Err(q) => Err(q),
                },
            decreases statements@.len() - i,
        {
            match self.execute(&statements[i], answers, k) {
                (Ok(effect), k1) => {
                    let ghost before = effect_views(effects@);
                    let ghost eff = match effect { Some(ref e) => Some(e@), None => None::<EffectView> };
                    match effect {
                        Some(e) => {
                            effects.push(e);
                        },
                        None => {},
                    }
                    proof {
                        assert(effect_views(effects@) == before + option_effects(eff));
                        match run_from(statements@, i + 1, ans, k1 as nat) {
                            Ok(rest) => {
                                assert(before + (option_effects(eff) + rest) == effect_views(effects@) + rest);
                            },
                            Err(_) => {},
                        }
                    }
                    k = k1;
                },
                (Err(q), _) => {
                    return Run::Ask(q);
                },
            }
            i = i + 1;
        }
        proof {
            assert(effect_views(effects@) + Seq::<EffectView>::empty() == effect_views(effects@));
        }
        Run::Done(effects)
    }

    /// The lines a run shows, in order: printed texts, and runtime errors
    /// reported on line 0, which `reporter` records.
    pub fn output(&self, effects: &Vec<Effect>, reporter: &mut ErrorReporter) -> (lines: Vec<String>)
        ensures
            lines@.len() == effects@.len(),
            forall|i: int| 0 <= i < effects@.len() ==> lines@[i]@ == output_line(effects@[i]@),
            final(reporter).texts() == old(reporter).texts() + error_reports(effect_views(effects@)),
            final(reporter).had_error == (old(reporter).had_error || error_reports(effect_views(effects@)).len() > 0),
    {
        let ghost all = effect_views(effects@);
        let mut lines: Vec<String> = Vec::new();
        let mut i: usize = 0;
        while i < effects.len()
            invariant
                i <= effects@.len(),
                all == effect_views(effects@),
                lines@.len() == i,
                forall|m: int| 0 <= m < i ==> lines@[m]@ == output_line(effects@[m]@),
                reporter.texts() == old(reporter).texts() + error_reports(all.take(i as int)),
                reporter.had_error == (old(reporter).had_error || error_reports(all.take(i as int)).len() > 0),
            decreases effects@.len() - i,
        {
            proof {
                assert(all.take(i + 1).drop_last() == all.take(i as int));
                assert(all.take(i + 1).last() == effects@[i as int]@);
            }
            match &effects[i] {
                Effect::Print(t) => {
                    lines.push(t.clone());
                },
                Effect::Error(m) => {
                    reporter.error(0, m.as_str());
                    assert(reporter.texts().len() == reporter.reports@.len());
                    let n = reporter.reports.len();
                    proof {
                        assert(reporter.texts()[n - 1] == reporter.reports@[n - 1]@);
                    }
                    lines.push(reporter.reports[n - 1].clone());
                },
            }
            i = i + 1;
        }
        proof {
            assert(all.take(effects@.len() as int) == all);
        }
        lines
    }

    fn execute(&self, statement: &Stmt, answers: &Vec<NumberAnswer>, k: usize) -> (r: (
        Result<Option<Effect>, NumberQuery>,
        usize,
    ))
        requires
            k <= answers@.len(),
        ensures
            r.1 <= answers@.len(),
            match exec_stmt(*statement, answer_views(answers@), k as nat) {
                (StmtOutcome::Done(e), k1) => r.0 is Ok && r.1 == k1 && match (r.0->Ok_0, e) {
                    (Some(x), Some(y)) => x@ == y,
                    (None, None) => true,
                    _ => false,
                },
                (StmtOutcome::Ask(q), _) => r.0 is Err && r.0->Err_0@ == q,
            },
    {
        match statement {
            Stmt::Expression(e) => match self.evaluate_at(e, answers, k) {
                (Evaluation::Value(_), k1) => (Ok(None), k1),
                (Evaluation::Failure(m), k1) => (Ok(Some(Effect::Error(m))), k1),
                (Evaluation::Ask(q), k1) => (Err(q), k1),
            },
            Stmt::Print(e) => match self.evaluate_at(e, answers, k) {
                (Evaluation::Value(v), k1) => match self.stringify(&v, answers, k1) {
                    Ok((t, k2)) => (Ok(Some(Effect::Print(t))), k2),
                    Err(q) => (Err(q), k1),
                },
                (Evaluation::Failure(m), k1) => (Ok(Some(Effect::Error(m))), k1),
                (Evaluation::Ask(q), k1) => (Err(q), k1),
            },
            Stmt::Var { .. } => (
                Ok(Some(Effect::Error(String::from_str("Variable declarations are not supported.")))),
                k,
            ),
        }
    }

    fn evaluate_at(&self, expr: &Expr, answers: &Vec<NumberAnswer>, k: usize) -> (r: (Evaluation, usize))
        requires
            k <= answers@.len(),
        ensures
            r.0@ == eval(*expr, answer_views(answers@), k as nat).0,
            r.1 == eval(*expr, answer_views(answers@), k as nat).1,
            r.1 <= answers@.len(),
        decreases expr, 1nat,
    {
        match expr {
            Expr::Literal(value) => self.visit_literal(value, answers, k),
            Expr::Grouping { expression } => self.evaluate_at(expression, answers, k),
            Expr::Unary { .. } => self.visit_unary(expr, answers, k),
            Expr::Binary { .. } => self.visit_binary(expr, answers, k),
            Expr::Ternary { .. } => self.visit_ternary(expr, answers, k),
        }
    }

    fn visit_literal(&self, value: &Option<Literal>, answers: &Vec<NumberAnswer>, k: usize) -> (r: (
        Evaluation,
        usize,
    ))
        requires
            k <= answers@.len(),
        ensures
            r.0@ == literal_value(*value, answer_views(answers@), k as nat).0,
            r.1 == literal_value(*value, answer_views(answers@), k as nat).1,
            r.1 <= answers@.len(),
    {
        match value {
            None => (Evaluation::Value(Value::Nil), k),
            Some(Literal::Nil) => (Evaluation::Value(Value::Nil), k),
            Some(Literal::True) => (Evaluation::Value(Value::True), k),
            Some(Literal::False) => (Evaluation::Value(Value::False), k),
            Some(Literal::String(s)) => (Evaluation::Value(Value::String(s.clone())), k),
            Some(Literal::Number(t)) => number_answer(answers, k, NumberQuery::Parse(t.clone())),
        }
    }

    fn visit_unary(&self, expr: &Expr, answers: &Vec<NumberAnswer>, k: usize) -> (r: (Evaluation, usize))
        requires
            k <= answers@.len(),
            expr is Unary,
        ensures
            r.0@ == eval(*expr, answer_views(answers@), k as nat).0,
            r.1 == eval(*expr, answer_views(answers@), k as nat).1,
            r.1 <= answers@.len(),
        decreases expr, 0nat,
    {
        let (operator, right) = match expr {
            Expr::Unary { operator, right } => (operator, right),
            // other kinds of node are excluded by the precondition
            _ => return (Evaluation::Value(Value::Nil), k),
        };
        let (o, k1) = self.evaluate_at(right, answers, k);
        let v = match o {
            Evaluation::Value(v) => v,
            _ => return (o, k1),
        };
        if operator.token_type == TokenType::Minus {
            match v {
                Value::Number(x) => (Evaluation::Value(Value::Number(x ^ SIGN_BIT)), k1),
                _ => (Evaluation::Failure(String::from_str("Applying '-' operator to a non number.")), k1),
            }
        } else if operator.token_type == TokenType::Bang {
            (Evaluation::Value(truth_value(self.is_truthy(&v))), k1)
        } else {
            (Evaluation::Value(v), k1)
        }
    }

    fn visit_ternary(&self, expr: &Expr, answers: &Vec<NumberAnswer>, k: usize) -> (r: (Evaluation, usize))
        requires
            k <= answers@.len(),
            expr is Ternary,
        ensures
            r.0@ == eval(*expr, answer_views(answers@), k as nat).0,
            r.1 == eval(*expr, answer_views(answers@), k as nat).1,
            r.1 <= answers@.len(),
        decreases expr, 0nat,
    {
        let (condition, then_branch, else_branch) = match expr {
            Expr::Ternary { condition, then_branch, else_branch } => (condition, then_branch, else_branch),
            // other kinds of node are excluded by the precondition
            _ => return (Evaluation::Value(Value::Nil), k),
        };
        let (o, k1) = self.evaluate_at(condition, answers, k);
        match o {
            Evaluation::Value(v) => {
                if self.is_truthy(&v) {
                    self.evaluate_at(then_branch, answers, k1)
                } else {
                    self.evaluate_at(else_branch, answers, k1)
                }
            },
            _ => (o, k1),
        }
    }

    fn visit_binary(&self, expr: &Expr, answers: &Vec<NumberAnswer>, k: usize) -> (r: (Evaluation, usize))
        requires
            k <= answers@.len(),
            expr is Binary,
        ensures
            r.0@ == eval(*expr, answer_views(answers@), k as nat).0,
            r.1 == eval(*expr, answer_views(answers@), k as nat).1,
            r.1 <= answers@.len(),
        decreases expr, 0nat,
    {
        let (left, operator, right) = match expr {
            Expr::Binary { left, operator, right } => (left, operator, right),
            // other kinds of node are excluded by the precondition
            _ => return (Evaluation::Value(Value::Nil), k),
        };
        let (o1, k1) = self.evaluate_at(left, answers, k);
        let a = match o1 {
            Evaluation::Value(a) => a,
            _ => return (o1, k1),
        };
        let (o2, k2) = self.evaluate_at(right, answers, k1);
        let b = match o2 {
            Evaluation::Value(b) => b,
            _ => return (o2, k2),
        };
        match operator.token_type {
            TokenType::Plus => self.plus(&a, &b, answers, k2),
            TokenType::Minus => self.arithmetic(
                ArithOp::Subtract,
                &a,
                &b,
                answers,
                k2,
                "Applying '-' operator to a non number.",
            ),
            TokenType::Star => self.arithmetic(
                ArithOp::Multiply,
                &a,
                &b,
                answers,
                k2,
                "Applying '*' operator to a non number.",
            ),
            TokenType::Slash => self.arithmetic(
                ArithOp::Divide,
                &a,
                &b,
                answers,
                k2,
                "Applying '/' operator to a non number.",
            ),
            TokenType::Greater => self.compare(CompareOp::Greater, &a, &b, answers, k2),
            TokenType::GreaterEqual => self.compare(CompareOp::GreaterEqual, &a, &b, answers, k2),
            TokenType::Less => self.compare(CompareOp::Less, &a, &b, answers, k2),
            TokenType::LessEqual => self.compare(CompareOp::LessEqual, &a, &b, answers, k2),
            TokenType::EqualEqual => match self.equals(&a, &b, answers, k2) {
                Ok((e, k3)) => (Evaluation::Value(truth_value(e)), k3),
                Err(q) => (Evaluation::Ask(q), k2),
            },
            TokenType::BangEqual => match self.equals(&a, &b, answers, k2) {
                Ok((e, k3)) => (Evaluation::Value(truth_value(!e)), k3),
                Err(q) => (Evaluation::Ask(q), k2),
            },
            _ => {
                let mut message = String::from_str("Invalid binary operation: ");
                message.append(operator.lexeme.as_str());
                (Evaluation::Failure(message), k2)
            },
        }
    }

    /// `+` on two values.
    fn plus(&self, a: &Value, b: &Value, answers: &Vec<NumberAnswer>, k: usize) -> (r: (Evaluation, usize))
        requires
            k <= answers@.len(),
        ensures
            r.0@ == plus(a@, b@, answer_views(answers@), k as nat).0,
            r.1 == plus(a@, b@, answer_views(answers@), k as nat).1,
            r.1 <= answers@.len(),
    {
        let a_text = match a { Value::String(_) => true, _ => false };
        let b_text = match b { Value::String(_) => true, _ => false };
        if a_text || b_text {
            match self.stringify(a, answers, k) {
                Err(q) => (Evaluation::Ask(q), k),
                Ok((da, k1)) => match self.stringify(b, answers, k1) {
                    Err(q) => (Evaluation::Ask(q), k1),
                    Ok((db, k2)) => {
                        let mut joined = da;
                        joined.append(db.as_str());
                        (Evaluation::Value(Value::String(joined)), k2)
                    },
                },
            }
        } else {
            self.arithmetic(ArithOp::Add, a, b, answers, k, "Applying '+' operator to a non number.")
        }
    }

    /// An arithmetic operator on two values; both must be numbers, and a
    /// divisor must not be zero.
    fn arithmetic(
        &self,
        op: ArithOp,
        a: &Value,
        b: &Value,
        answers: &Vec<NumberAnswer>,
        k: usize,
        message: &str,
    ) -> (r: (Evaluation, usize))
        requires
            k <= answers@.len(),
        ensures
            r.0@ == arithmetic(op, a@, b@, answer_views(answers@), k as nat, message@).0,
            r.1 == arithmetic(op, a@, b@, answer_views(answers@), k as nat, message@).1,
            r.1 <= answers@.len(),
    {
        match (a, b) {
            (Value::Number(x), Value::Number(y)) => {
                if op == ArithOp::Divide && *y & MAGNITUDE_BITS == 0 {
                    (Evaluation::Failure(String::from_str("Division by zero.")), k)
                } else {
                    number_answer(answers, k, NumberQuery::Arithmetic(op, *x, *y))
                }
            },
            _ => (Evaluation::Failure(String::from_str(message)), k),
        }
    }

    /// An ordering operator on two numbers.
    fn compare(&self, op: CompareOp, a: &Value, b: &Value, answers: &Vec<NumberAnswer>, k: usize) -> (r: (
        Evaluation,
        usize,
    ))
        requires
            k <= answers@.len(),
        ensures
            r.0@ == compare(op, a@, b@, answer_views(answers@), k as nat).0,
            r.1 == compare(op, a@, b@, answer_views(answers@), k as nat).1,
            r.1 <= answers@.len(),
    {
        match (a, b) {
            (Value::Number(x), Value::Number(y)) => match truth_answer(
                answers,
                k,
                NumberQuery::Compare(op, *x, *y),
            ) {
                Ok((t, k1)) => (Evaluation::Value(truth_value(t)), k1),
                Err(q) => (Evaluation::Ask(q), k),
            },
            _ => (Evaluation::Failure(String::from_str("Applying '>' operator to a non number.")), k),
        }
    }

    /// Structural equality of two values.
    fn equals(&self, a: &Value, b: &Value, answers: &Vec<NumberAnswer>, k: usize) -> (r: Result<(bool, usize), NumberQuery>)
        requires
            k <= answers@.len(),
        ensures
            match (r, equal(a@, b@, answer_views(answers@), k as nat)) {
                (Ok((e, j)), Ok((f, m))) => e == f && j == m && j <= answers@.len(),
                (Err(p), Err(s)) => p@ == s,
                _ => false,
            },
    {
        match (a, b) {
            (Value::Number(x), Value::Number(y)) => truth_answer(answers, k, NumberQuery::Equal(*x, *y)),
            (Value::Nil, Value::Nil) => Ok((true, k)),
            (Value::True, Value::True) => Ok((true, k)),
            (Value::False, Value::False) => Ok((true, k)),
            (Value::String(s), Value::String(t)) => {
                let same = *s == *t;
                Ok((same, k))
            },
            _ => Ok((false, k)),
        }
    }

    fn is_truthy(&self, value: &Value) -> (r: bool)
        ensures
            r == truthy(value@),
    {
        match value {
            Value::Nil => false,
            Value::False => false,
            _ => true,
        }
    }

    fn stringify(&self, value: &Value, answers: &Vec<NumberAnswer>, k: usize) -> (r: Result<(String, usize), NumberQuery>)
        requires
            k <= answers@.len(),
        ensures
            match (r, display(value@, answer_views(answers@), k as nat)) {
                (Ok((s, j)), Ok((t, m))) => s@ == t && j == m && j <= answers@.len(),
                (Err(q), Err(p)) => q@ == p,
                _ => false,
            },
    {
        match value {
            Value::Nil => Ok((String::from_str("nil"), k)),
            Value::True => Ok((String::from_str("true"), k)),
            Value::False => Ok((String::from_str("false"), k)),
            Value::String(s) => Ok((s.clone(), k)),
            Value::Number(x) => {
                if k < answers.len() {
                    match &answers[k] {
                        NumberAnswer::Text(t) => {
                            return Ok((t.clone(), k + 1));
                        },
                        _ => {},
                    }
                }
                Err(NumberQuery::Show(*x))
            },
        }
    }
}

fn truth_value(b: bool) -> (r: Value)
    ensures
        r@ == truth(b),
{
    if b { Value::True } else { Value::False }
}

/// Takes the answer at `k` when it is a number.
fn number_answer(answers: &Vec<NumberAnswer>, k: usize, q: NumberQuery) -> (r: (Evaluation, usize))
    requires
        k <= answers@.len(),
    ensures
        r.0@ == answer_number(answer_views(answers@), k as nat, q@).0,
        r.1 == answer_number(answer_views(answers@), k as nat, q@).1,
        r.1 <= answers@.len(),
{
    if k < answers.len() {
        match &answers[k] {
            NumberAnswer::Number(x) => {
                return (Evaluation::Value(Value::Number(*x)), k + 1);
            },
            _ => {},
        }
    }
    (Evaluation::Ask(q), k)
}

/// Takes the answer at `k` when it is a truth value.
fn truth_answer(answers: &Vec<NumberAnswer>, k: usize, q: NumberQuery) -> (r: Result<(bool, usize), NumberQuery>)
    requires
        k <= answers@.len(),
    ensures
        match (r, answer_truth(answer_views(answers@), k as nat, q@)) {
            (Ok((b, j)), Ok((c, m))) => b == c && j == m && j <= answers@.len(),
            (Err(p), Err(s)) => p@ == s,
            _ => false,
        },
{
    if k < answers.len() {
        match &answers[k] {
            NumberAnswer::Truth(b) => {
                return Ok((*b, k + 1));
            },
            _ => {},
        }
    }
    Err(q)
}

} // verus!
