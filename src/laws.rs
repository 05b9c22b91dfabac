//! Properties of scanning and evaluation, proved from the definitions the
//! scanner and the evaluator are verified against.
use vstd::prelude::*;
use crate::ast::Expr;
use crate::error_reporter::report_text;
use crate::lexical::{find_char, step, token_at};
use crate::semantics::{
    binary_value, display, equal, eval, failure, is_zero, answer_number, plus, truth, truthy,
    unary_value,
};
use crate::token::{Token, TokenType};
use crate::value::{AnswerView, ArithOp, OutcomeView, QueryView, ValueView};

verus! {

/// Equality is decided without error on any two values that are not both
/// numbers, and there it is plain identity: `nil == nil`, `true == true` and
/// equal texts hold, and values of different kinds are never equal.
pub proof fn lemma_equality_variant_aware(a: ValueView, b: ValueView, ans: Seq<AnswerView>, k: nat)
    requires
        !(a is Number && b is Number),
    ensures
        equal(a, b, ans, k) == Ok::<(bool, nat), QueryView>((a == b, k)),
{
}

/// `==` and `!=` never fail: they give a value or, on two numbers, ask for
/// their comparison.
pub proof fn lemma_equality_never_fails(operator: Token, a: ValueView, b: ValueView, ans: Seq<AnswerView>, k: nat)
    requires
        operator.token_type == TokenType::EqualEqual || operator.token_type == TokenType::BangEqual,
    ensures
        !(binary_value(operator, a, b, ans, k).0 is Failure),
{
}

/// `-`, `*`, `/` and the four orderings fail unless both operands are
/// numbers.
pub proof fn lemma_arithmetic_needs_numbers(operator: Token, a: ValueView, b: ValueView, ans: Seq<AnswerView>, k: nat)
    requires
        operator.token_type == TokenType::Minus || operator.token_type == TokenType::Star
            || operator.token_type == TokenType::Slash || operator.token_type == TokenType::Greater
            || operator.token_type == TokenType::GreaterEqual || operator.token_type == TokenType::Less
            || operator.token_type == TokenType::LessEqual,
        !(a is Number && b is Number),
    ensures
        binary_value(operator, a, b, ans, k).0 is Failure,
{
}

/// Negation fails on anything but a number.
pub proof fn lemma_negation_needs_a_number(operator: Token, v: ValueView, k: nat)
    requires
        operator.token_type == TokenType::Minus,
        !(v is Number),
    ensures
        unary_value(operator, v, k) == failure("Applying '-' operator to a non number."@, k),
{
}

/// Dividing by zero of either sign fails with "Division by zero."; any
/// other divisor goes to the host for the quotient.
pub proof fn lemma_division_by_zero(operator: Token, x: u64, y: u64, ans: Seq<AnswerView>, k: nat)
    requires
        operator.token_type == TokenType::Slash,
    ensures
        is_zero(y) ==> binary_value(operator, ValueView::Number(x), ValueView::Number(y), ans, k)
            == failure("Division by zero."@, k),
        !is_zero(y) ==> binary_value(operator, ValueView::Number(x), ValueView::Number(y), ans, k)
            == answer_number(ans, k, QueryView::Arithmetic(ArithOp::Divide, x, y)),
{
}

/// `==` on two values that are not both numbers is decided at once: `true`
/// exactly when they are the same value, `false` across kinds.
pub proof fn lemma_equality_operator_by_kind(operator: Token, a: ValueView, b: ValueView, ans: Seq<AnswerView>, k: nat)
    requires
        operator.token_type == TokenType::EqualEqual,
        !(a is Number && b is Number),
    ensures
        binary_value(operator, a, b, ans, k) == (OutcomeView::Value(truth(a == b)), k),
{
}

/// `!` gives the truthiness of its operand: `false` for `nil` and `false`,
/// `true` for every other value.
pub proof fn lemma_bang_is_truthiness(operator: Token, v: ValueView, k: nat)
    requires
        operator.token_type == TokenType::Bang,
    ensures
        unary_value(operator, v, k) == (OutcomeView::Value(truth(truthy(v))), k),
        (v is Nil || v is False) ==> unary_value(operator, v, k).0 == OutcomeView::Value(ValueView::False),
        !(v is Nil || v is False) ==> unary_value(operator, v, k).0 == OutcomeView::Value(ValueView::True),
{
}

/// `+` with text on either side never fails: it joins the display texts of
/// both operands, left then right, asking the host only for the text of a
/// number.
pub proof fn lemma_plus_with_text_concatenates(a: ValueView, b: ValueView, ans: Seq<AnswerView>, k: nat)
    requires
        a is Str || b is Str,
    ensures
        !(plus(a, b, ans, k).0 is Failure),
        match display(a, ans, k) {
            Ok((da, k1)) => match display(b, ans, k1) {
                Ok((db, k2)) => plus(a, b, ans, k) == (OutcomeView::Value(ValueView::Str(da + db)), k2),
                Err(q) => plus(a, b, ans, k) == (OutcomeView::Ask(q), k1),
            },
            Err(q) => plus(a, b, ans, k) == (OutcomeView::Ask(q), k),
        },
{
}

/// A conditional whose condition is falsy evaluates only its else branch:
/// its then branch makes no query and raises no error, so any then branch
/// gives the same outcome.
pub proof fn lemma_ternary_short_circuit(
    condition: Expr,
    then_a: Expr,
    then_b: Expr,
    else_branch: Expr,
    ans: Seq<AnswerView>,
    k: nat,
)
    requires
        eval(condition, ans, k).0 is Value,
        !truthy(eval(condition, ans, k).0->Value_0),
    ensures
        eval(
            Expr::Ternary {
                condition: Box::new(condition),
                then_branch: Box::new(then_a),
                else_branch: Box::new(else_branch),
            },
            ans,
            k,
        ) == eval(else_branch, ans, eval(condition, ans, k).1),
        eval(
            Expr::Ternary {
                condition: Box::new(condition),
                then_branch: Box::new(then_b),
                else_branch: Box::new(else_branch),
            },
            ans,
            k,
        ) == eval(else_branch, ans, eval(condition, ans, k).1),
{
}

proof fn lemma_no_quote_after(s: Seq<char>, j: int)
    requires
        0 <= j <= s.len(),
        forall|m: int| j <= m < s.len() ==> s[m] != '"',
    ensures
        find_char(s, j, '"') == s.len(),
    decreases s.len() - j,
{
    if j < s.len() {
        lemma_no_quote_after(s, j + 1);
    }
}

/// A string literal with no closing quote still yields a string token that
/// holds the rest of the text, together with an "Unterminated string."
/// diagnostic, and scanning goes on at the end of the text.
pub proof fn lemma_unterminated_string(s: Seq<char>, i: int, line: nat)
    requires
        0 <= i < s.len(),
        s[i] == '"',
        forall|m: int| i < m < s.len() ==> s[m] != '"',
    ensures
        ({
            let st = step(s, i, line);
            &&& st.token == Some(
                token_at(TokenType::String, s, i, s.len() as int, Some(s.subrange(i + 1, s.len() as int)), st.line),
            )
            &&& st.error == Some(report_text(st.line, Seq::empty(), "Unterminated string."@))
            &&& st.next == s.len()
        }),
{
    lemma_no_quote_after(s, i + 1);
}

} // verus!
