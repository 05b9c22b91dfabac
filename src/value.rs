use vstd::prelude::*;

verus! {

/// A runtime value. A number is held as the bit pattern of an IEEE-754
/// binary64 value: the library moves numbers around and decides on their
/// kind, and leaves arithmetic on them to its host (see `NumberQuery`).
///
/// Rust's `==` on `Value` is identity: same kind, and for numbers the same
/// bits. The language's `==`, which tolerates round-off between numbers,
/// is the evaluator's (`semantics::equal`).
#[derive(Clone, Debug, PartialEq)]
pub enum Value {
    Nil,
    True,
    False,
    Number(u64),
    String(String),
}

impl Value {
    pub fn is_number(&self) -> (r: bool)
        ensures
            r == self@ is Number,
    {
        match self {
            Value::Number(_) => true,
            _ => false,
        }
    }

    /// The text value holding `value`.
    pub fn to_string(value: &str) -> (r: Value)
        ensures
            r@ == ValueView::Str(value@),
    {
        Value::String(value.to_string())
    }
}

/// The mathematical model of a value.
pub enum ValueView {
    Nil,
    True,
    False,
    Number(u64),
    Str(Seq<char>),
}

impl View for Value {
    type V = ValueView;

    open spec fn view(&self) -> ValueView {
        match self {
            Value::Nil => ValueView::Nil,
            Value::True => ValueView::True,
            Value::False => ValueView::False,
            Value::Number(b) => ValueView::Number(*b),
            Value::String(s) => ValueView::Str(s@),
        }
    }
}

#[derive(Clone, Copy, Debug, PartialEq, Eq, Structural)]
pub enum ArithOp {
    Add,
    Subtract,
    Multiply,
    Divide,
}

#[derive(Clone, Copy, Debug, PartialEq, Eq, Structural)]
pub enum CompareOp {
    Greater,
    GreaterEqual,
    Less,
    LessEqual,
}

/// A piece of floating-point work the evaluator needs done. Numbers are
/// IEEE-754 binary64 bit patterns.
#[derive(Debug, PartialEq)]
pub enum NumberQuery {
    /// The number a literal's digits denote; answered by `Number`.
    Parse(String),
    /// The result of an arithmetic operation; answered by `Number`.
    Arithmetic(ArithOp, u64, u64),
    /// The outcome of an ordering; answered by `Truth`.
    Compare(CompareOp, u64, u64),
    /// Whether two numbers are equal within round-off; answered by `Truth`.
    Equal(u64, u64),
    /// The display text of a number; answered by `Text`.
    Show(u64),
}

pub enum QueryView {
    Parse(Seq<char>),
    Arithmetic(ArithOp, u64, u64),
    Compare(CompareOp, u64, u64),
    Equal(u64, u64),
    Show(u64),
}

impl View for NumberQuery {
    type V = QueryView;

    open spec fn view(&self) -> QueryView {
        match self {
            NumberQuery::Parse(t) => QueryView::Parse(t@),
            NumberQuery::Arithmetic(op, a, b) => QueryView::Arithmetic(*op, *a, *b),
            NumberQuery::Compare(op, a, b) => QueryView::Compare(*op, *a, *b),
            NumberQuery::Equal(a, b) => QueryView::Equal(*a, *b),
            NumberQuery::Show(a) => QueryView::Show(*a),
        }
    }
}

/// The host's answer to a `NumberQuery`.
#[derive(Debug)]
pub enum NumberAnswer {
    Number(u64),
    Truth(bool),
    Text(String),
}

pub enum AnswerView {
    Number(u64),
    Truth(bool),
    Text(Seq<char>),
}

impl View for NumberAnswer {
    type V = AnswerView;

    open spec fn view(&self) -> AnswerView {
        match self {
            NumberAnswer::Number(b) => AnswerView::Number(*b),
            NumberAnswer::Truth(t) => AnswerView::Truth(*t),
            NumberAnswer::Text(s) => AnswerView::Text(s@),
        }
    }
}

pub open spec fn answer_views(v: Seq<NumberAnswer>) -> Seq<AnswerView> {
    v.map_values(|a: NumberAnswer| a@)
}

/// How evaluating an expression ends: with a value, with a runtime error,
/// or by asking for a number it cannot compute itself.
#[derive(Debug)]
pub enum Evaluation {
    Value(Value),
    Failure(String),
    Ask(NumberQuery),
}

pub enum OutcomeView {
    Value(ValueView),
    Failure(Seq<char>),
    Ask(QueryView),
}

impl View for Evaluation {
    type V = OutcomeView;

    open spec fn view(&self) -> OutcomeView {
        match self {
            Evaluation::Value(v) => OutcomeView::Value(v@),
            Evaluation::Failure(m) => OutcomeView::Failure(m@),
            Evaluation::Ask(q) => OutcomeView::Ask(q@),
        }
    }
}

/// What running a statement leaves behind: a printed line, or a runtime
/// error's message.
#[derive(Debug, PartialEq)]
pub enum Effect {
    Print(String),
    Error(String),
}

pub enum EffectView {
    Print(Seq<char>),
    Error(Seq<char>),
}

impl View for Effect {
    type V = EffectView;

    open spec fn view(&self) -> EffectView {
        match self {
            Effect::Print(s) => EffectView::Print(s@),
            Effect::Error(s) => EffectView::Error(s@),
        }
    }
}

pub open spec fn effect_views(v: Seq<Effect>) -> Seq<EffectView> {
    v.map_values(|e: Effect| e@)
}

/// How running a program ends: with its effects in order, or by asking for
/// a number.
#[derive(Debug)]
pub enum Run {
    Done(Vec<Effect>),
    Ask(NumberQuery),
}

} // verus!
