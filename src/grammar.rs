//! The grammar, as the parse each rule gives at a position of a token
//! sequence. A parse yields a tree and the position after it, or the
//! position of the offending token and a message.
use vstd::prelude::*;
use crate::ast::{Expr, Literal, Stmt};
use crate::token::{Token, TokenType};

verus! {

pub type Parsed = Result<(Expr, int), (int, Seq<char>)>;

pub open spec fn kind_at(toks: Seq<Token>, i: int) -> TokenType {
    if 0 <= i < toks.len() {
        toks[i].token_type
    } else {
        TokenType::EOF
    }
}

/// The operators of the left-associative binary levels: 0 equality,
/// 1 comparison, 2 term, 3 factor.
pub open spec fn level_op(level: nat, k: TokenType) -> bool {
    if level == 0 {
        k == TokenType::BangEqual || k == TokenType::EqualEqual
    } else if level == 1 {
        k == TokenType::Greater || k == TokenType::GreaterEqual || k == TokenType::Less
            || k == TokenType::LessEqual
    } else if level == 2 {
        k == TokenType::Minus || k == TokenType::Plus
    } else {
        k == TokenType::Slash || k == TokenType::Star
    }
}

/// Positions only grow and stay within the `n` tokens; a parse that did not
/// move past `i`, or left the tokens, is turned into an error so that each rule is defined on every input.
pub open spec fn past(r: Parsed, i: int, n: int) -> Parsed {
    match r {
        Ok((e, j)) => if i < j <= n { Ok((e, j)) } else { Err((i, "Expect expression."@)) },
        Err(x) => Err(x),
    }
}

pub open spec fn binary(left: Expr, operator: Token, right: Expr) -> Expr {
    Expr::Binary { left: Box::new(left), operator, right: Box::new(right) }
}

/// expression → ternary ( "," equality )*
pub open spec fn p_expression(toks: Seq<Token>, i: int) -> Parsed
    decreases toks.len() - i, 8nat,
{
    match past(p_level(toks, 0, i), i, toks.len() as int) {
        Err(x) => Err(x),
        Ok((first, j)) => match past(p_ternary_rest(toks, first, j), i, toks.len() as int) {
            Err(x) => Err(x),
            Ok((t, k)) => p_comma_rest(toks, t, k),
        },
    }
}

/// ( "?" expression ":" expression )*, after the condition ends at `j`.
pub open spec fn p_ternary_rest(toks: Seq<Token>, condition: Expr, j: int) -> Parsed
    decreases toks.len() - j, 7nat,
{
    if kind_at(toks, j) != TokenType::Question || j < 0 {
        Ok((condition, j))
    } else {
        match past(p_expression(toks, j + 1), j, toks.len() as int) {
            Err(x) => Err(x),
            Ok((then_branch, k)) => if kind_at(toks, k) != TokenType::Colon {
                Err((k, "Expect ':' after then branch."@))
            } else {
                match past(p_expression(toks, k + 1), j, toks.len() as int) {
                    Err(x) => Err(x),
                    Ok((else_branch, m)) => p_ternary_rest(
                        toks,
                        Expr::Ternary {
                            condition: Box::new(condition),
                            then_branch: Box::new(then_branch),
                            else_branch: Box::new(else_branch),
                        },
                        m,
                    ),
                }
            },
        }
    }
}

/// ( "," equality )*, after the left operand ends at `j`.
pub open spec fn p_comma_rest(toks: Seq<Token>, left: Expr, j: int) -> Parsed
    decreases toks.len() - j, 7nat,
{
    if kind_at(toks, j) != TokenType::Comma || j < 0 {
        Ok((left, j))
    } else {
        match past(p_level(toks, 0, j + 1), j, toks.len() as int) {
            Err(x) => Err(x),
            Ok((right, k)) => p_comma_rest(toks, binary(left, toks[j], right), k),
        }
    }
}

/// level → next ( op next )*, for the four binary levels; level 4 is unary.
pub open spec fn p_level(toks: Seq<Token>, level: nat, i: int) -> Parsed
    decreases toks.len() - i, if level >= 4 { 2 } else { 6 - level },
{
    if level >= 4 {
        p_unary(toks, i)
    } else {
        match past(p_level(toks, level + 1, i), i, toks.len() as int) {
            Err(x) => Err(x),
            Ok((first, j)) => p_level_rest(toks, level, first, j),
        }
    }
}

/// ( op next )*, after the left operand ends at `j`.
pub open spec fn p_level_rest(toks: Seq<Token>, level: nat, left: Expr, j: int) -> Parsed
    decreases toks.len() - j, 0nat,
{
    if level >= 4 || !level_op(level, kind_at(toks, j)) || j < 0 {
        Ok((left, j))
    } else {
        match past(p_level(toks, level + 1, j + 1), j, toks.len() as int) {
            Err(x) => Err(x),
            Ok((right, k)) => p_level_rest(toks, level, binary(left, toks[j], right), k),
        }
    }
}

/// unary → ( "!" | "-" ) unary | primary
pub open spec fn p_unary(toks: Seq<Token>, i: int) -> Parsed
    decreases toks.len() - i, 1nat,
{
    let k = kind_at(toks, i);
    if (k == TokenType::Bang || k == TokenType::Minus) && i >= 0 {
        match p_unary(toks, i + 1) {
            Err(x) => Err(x),
            Ok((right, j)) => Ok((Expr::Unary { operator: toks[i], right: Box::new(right) }, j)),
        }
    } else {
        p_primary(toks, i)
    }
}

/// primary → NUMBER | STRING | "true" | "false" | "nil" | "(" expression ")"
pub open spec fn p_primary(toks: Seq<Token>, i: int) -> Parsed
    decreases toks.len() - i, 0nat,
{
    let k = kind_at(toks, i);
    if i < 0 {
        Err((i, "Expect expression."@))
    } else if k == TokenType::False {
        Ok((Expr::Literal(Some(Literal::False)), i + 1))
    } else if k == TokenType::True {
        Ok((Expr::Literal(Some(Literal::True)), i + 1))
    } else if k == TokenType::Nil {
        Ok((Expr::Literal(Some(Literal::Nil)), i + 1))
    } else if k == TokenType::Number {
        Ok((Expr::Literal(Some(Literal::Number(payload(toks[i])))), i + 1))
    } else if k == TokenType::String {
        Ok((Expr::Literal(Some(Literal::String(payload(toks[i])))), i + 1))
    } else if k == TokenType::LeftParen {
        match p_expression(toks, i + 1) {
            Err(x) => Err(x),
            Ok((e, j)) => if kind_at(toks, j) != TokenType::RightParen {
                Err((j, "Expect ')' after expression."@))
            } else {
                Ok((Expr::Grouping { expression: Box::new(e) }, j + 1))
            },
        }
    } else {
        Err((i, "Expect expression."@))
    }
}

/// The payload a literal token carries: the scanner gives numbers their
/// digits and strings their text between the quotes.
pub open spec fn payload(t: Token) -> String {
    match t.literal {
        Some(s) => s,
        None => t.lexeme,
    }
}

pub type ParsedStmt = Result<(Stmt, int), (int, Seq<char>)>;

/// statement → "print" expression ";" | expression ";"
pub open spec fn p_statement(toks: Seq<Token>, i: int) -> ParsedStmt {
    if kind_at(toks, i) == TokenType::Print {
        match p_expression(toks, i + 1) {
            Err(x) => Err(x),
            Ok((e, j)) => if kind_at(toks, j) != TokenType::Semicolon {
                Err((j, "Expect ';' after value."@))
            } else {
                Ok((Stmt::Print(e), j + 1))
            },
        }
    } else {
        match p_expression(toks, i) {
            Err(x) => Err(x),
            Ok((e, j)) => if kind_at(toks, j) != TokenType::Semicolon {
                Err((j, "Expect ';' after expression."@))
            } else {
                Ok((Stmt::Expression(e), j + 1))
            },
        }
    }
}

/// program → statement* EOF, from position `i`.
pub open spec fn p_program(toks: Seq<Token>, i: int) -> Result<Seq<Stmt>, (int, Seq<char>)>
    decreases toks.len() - i,
{
    if i < 0 || i >= toks.len() || kind_at(toks, i) == TokenType::EOF {
        Ok(Seq::empty())
    } else {
        match p_statement(toks, i) {
            Err(x) => Err(x),
            Ok((s, j)) => if j <= i {
                Err((i, "Expect expression."@))
            } else {
                match p_program(toks, j) {
                    Err(x) => Err(x),
                    Ok(rest) => Ok(seq![s] + rest),
                }
            },
        }
    }
}

} // verus!
