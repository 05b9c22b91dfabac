use vstd::prelude::*;
use vstd::string::StringExecFns;
use crate::ast::{Expr, Literal, Stmt};
use crate::error_reporter::{place_of, report_text, ErrorReporter};
use crate::grammar::{
    kind_at, p_comma_rest, p_expression, p_level, p_level_rest, p_primary, p_program, p_statement,
    p_ternary_rest, p_unary, payload, Parsed,
};
use crate::token::{Token, TokenType};

verus! {

/// A syntax error: the offending token and what was expected there.
#[derive(Debug)]
pub struct ParseError {
    pub token: Token,
    pub message: String,
}

pub open spec fn error_is(e: ParseError, toks: Seq<Token>, at: int, message: Seq<char>) -> bool {
    0 <= at < toks.len() && e.token == toks[at] && e.message@ == message
}

/// An executable parse result agrees with the grammar's.
pub open spec fn agrees(r: Result<(Expr, usize), ParseError>, toks: Seq<Token>, p: Parsed) -> bool {
    match (r, p) {
        (Ok((e, j)), Ok((f, k))) => e == f && j == k,
        (Err(x), Err((at, m))) => error_is(x, toks, at, m),
        _ => false,
    }
}

/// After a successful parse from `i` the position has moved on and still
/// points at a token.
pub open spec fn moved(r: Result<(Expr, usize), ParseError>, i: int, n: int) -> bool {
    r is Ok ==> i < r->Ok_0.1 < n
}

/// Recursive descent over a token sequence that ends with the end-of-input
/// token.
pub struct Parser {
    tokens: Vec<Token>,
    current: usize,
}

impl Parser {
    /// The tokens being parsed.
    pub closed spec fn token_seq(&self) -> Seq<Token> {
        self.tokens@
    }

    /// Where parsing stopped.
    pub closed spec fn position(&self) -> int {
        self.current as int
    }

    pub closed spec fn wf(&self) -> bool {
        &&& 0 < self.tokens@.len() <= usize::MAX
        &&& self.tokens@.last().token_type == TokenType::EOF
        &&& self.current < self.tokens@.len()
    }

    pub fn new(tokens: Vec<Token>) -> (r: Parser)
        requires
            tokens@.len() > 0,
            tokens@.last().token_type == TokenType::EOF,
        ensures
            r.wf(),
            r.token_seq() == tokens@,
            r.position() == 0,
    {
        let _n: usize = tokens.len();
        Parser { tokens, current: 0 }
    }

    /// Gives the tokens back.
    pub fn into_tokens(self) -> (r: Vec<Token>)
        ensures
            r@ == self.token_seq(),
    {
        self.tokens
    }

    /// Parses a program: statements up to the end of input. The first
    /// syntax error ends the parse and is reported.
    pub fn parse(&mut self, reporter: &mut ErrorReporter) -> (r: Result<Vec<Stmt>, ParseError>)
        requires
            old(self).wf(),
        ensures
            final(self).wf(),
            final(self).token_seq() == old(self).token_seq(),
            match p_program(old(self).token_seq(), 0) {
                Ok(stmts) => r is Ok && r->Ok_0@ == stmts && *final(reporter) == *old(reporter),
                Err((at, m)) => r is Err && error_is(r->Err_0, old(self).token_seq(), at, m)
                    && final(reporter).had_error && final(reporter).texts() == old(reporter).texts().push(
                    report_text(old(self).token_seq()[at].line as nat, place_of(old(self).token_seq()[at]@), m),
                ),
            },
    {
        let ghost toks = self.tokens@;
        let mut stmts: Vec<Stmt> = Vec::new();
        let mut j: usize = 0;
        while !self.is_at_end(j)
            invariant
                self.wf(),
                self.tokens@ == toks,
                toks == old(self).tokens@,
                j < toks.len(),
                *reporter == *old(reporter),
                p_program(toks, 0) == match p_program(toks, j as int) {
                    Ok(rest) => Ok(stmts@ + rest),
                    Err(x) => Err(x),
                },
            decreases toks.len() - j,
        {
            match self.statement(j) {
                Ok((s, k)) => {
                    let ghost before = stmts@;
                    stmts.push(s);
                    proof {
                        match p_program(toks, k as int) {
                            Ok(rest) => {
                                assert(before + (seq![s] + rest) == stmts@ + rest);
                            },
                            Err(x) => {},
                        }
                    }
                    j = k;
                },
                Err(e) => {
                    reporter.token_error(&e.token, e.message.as_str());
                    self.current = j;
                    return Err(e);
                },
            }
        }
        proof {
            assert(stmts@ + Seq::<Stmt>::empty() == stmts@);
        }
        self.current = j;
        Ok(stmts)
    }

    /// Parses one expression from the start; the tokens after it are left.
    /// A syntax error is reported.
    pub fn parse_expression(&mut self, reporter: &mut ErrorReporter) -> (r: Result<Expr, ParseError>)
        requires
            old(self).wf(),
        ensures
            final(self).wf(),
            final(self).token_seq() == old(self).token_seq(),
            match p_expression(old(self).token_seq(), 0) {
                Ok((e, j)) => r == Ok::<Expr, ParseError>(e) && final(self).position() == j
                    && *final(reporter) == *old(reporter),
                Err((at, m)) => r is Err && error_is(r->Err_0, old(self).token_seq(), at, m)
                    && final(reporter).had_error && final(reporter).texts() == old(reporter).texts().push(
                    report_text(old(self).token_seq()[at].line as nat, place_of(old(self).token_seq()[at]@), m),
                ),
            },
    {
        match self.expression(0) {
            Ok((e, j)) => {
                self.current = j;
                Ok(e)
            },
            Err(e) => {
                reporter.token_error(&e.token, e.message.as_str());
                Err(e)
            },
        }
    }

    fn statement(&self, i: usize) -> (r: Result<(Stmt, usize), ParseError>)
        requires
            self.wf(),
            i < self.tokens@.len(),
        ensures
            match (r, p_statement(self.tokens@, i as int)) {
                (Ok((s, j)), Ok((t, k))) => s == t && j == k && i < j < self.tokens@.len(),
                (Err(x), Err((at, m))) => error_is(x, self.tokens@, at, m),
                _ => false,
            },
    {
        if self.check(i, TokenType::Print) {
            let (e, j) = self.expression(i + 1)?;
            self.consume(j, TokenType::Semicolon, "Expect ';' after value.")?;
            Ok((Stmt::Print(e), j + 1))
        } else {
            let (e, j) = self.expression(i)?;
            self.consume(j, TokenType::Semicolon, "Expect ';' after expression.")?;
            Ok((Stmt::Expression(e), j + 1))
        }
    }

    fn expression(&self, i: usize) -> (r: Result<(Expr, usize), ParseError>)
        requires
            self.wf(),
            i < self.tokens@.len(),
        ensures
            agrees(r, self.tokens@, p_expression(self.tokens@, i as int)),
            moved(r, i as int, self.tokens@.len() as int),
        decreases self.tokens@.len() - i, 8nat,
    {
        let ghost toks = self.tokens@;
        let (first, j0) = self.equality(i)?;
        let mut expr = first;
        let mut j = j0;
        while self.check(j, TokenType::Question)
            invariant
                self.wf(),
                self.tokens@ == toks,
                i < j0 <= j < toks.len(),
                p_level(toks, 0, i as int) == Ok::<(Expr, int), (int, Seq<char>)>((first, j0 as int)),
                p_ternary_rest(toks, first, j0 as int) == p_ternary_rest(toks, expr, j as int),
            decreases toks.len() - j,
        {
            let (then_branch, k) = self.expression(j + 1)?;
            self.consume(k, TokenType::Colon, "Expect ':' after then branch.")?;
            let (else_branch, m) = self.expression(k + 1)?;
            expr = Expr::Ternary {
                condition: Box::new(expr),
                then_branch: Box::new(then_branch),
                else_branch: Box::new(else_branch),
            };
            j = m;
        }
        while self.check(j, TokenType::Comma)
            invariant
                self.wf(),
                self.tokens@ == toks,
                i < j < toks.len(),
                p_expression(toks, i as int) == p_comma_rest(toks, expr, j as int),
            decreases toks.len() - j,
        {
            let operator = self.peek(j).duplicate();
            let (right, k) = self.equality(j + 1)?;
            expr = Expr::Binary { left: Box::new(expr), operator, right: Box::new(right) };
            j = k;
        }
        Ok((expr, j))
    }

    fn equality(&self, i: usize) -> (r: Result<(Expr, usize), ParseError>)
        requires
            self.wf(),
            i < self.tokens@.len(),
        ensures
            agrees(r, self.tokens@, p_level(self.tokens@, 0nat, i as int)),
            moved(r, i as int, self.tokens@.len() as int),
        decreases self.tokens@.len() - i, 6nat,
    {
        let ghost toks = self.tokens@;
        let (first, j0) = self.comparison(i)?;
        let mut expr = first;
        let mut j = j0;
        while self.check(j, TokenType::BangEqual) || self.check(j, TokenType::EqualEqual)
            invariant
                self.wf(),
                self.tokens@ == toks,
                i < j < toks.len(),
                p_level(toks, 0nat, i as int) == p_level_rest(toks, 0nat, expr, j as int),
            decreases toks.len() - j,
        {
            let operator = self.peek(j).duplicate();
            let (right, k) = self.comparison(j + 1)?;
            expr = Expr::Binary { left: Box::new(expr), operator, right: Box::new(right) };
            j = k;
        }
        Ok((expr, j))
    }

    fn comparison(&self, i: usize) -> (r: Result<(Expr, usize), ParseError>)
        requires
            self.wf(),
            i < self.tokens@.len(),
        ensures
            agrees(r, self.tokens@, p_level(self.tokens@, 1nat, i as int)),
            moved(r, i as int, self.tokens@.len() as int),
        decreases self.tokens@.len() - i, 5nat,
    {
        let ghost toks = self.tokens@;
        let (first, j0) = self.term(i)?;
        let mut expr = first;
        let mut j = j0;
        while self.check(j, TokenType::Greater) || self.check(j, TokenType::GreaterEqual) || self.check(j, TokenType::Less) || self.check(j, TokenType::LessEqual)
            invariant
                self.wf(),
                self.tokens@ == toks,
                i < j < toks.len(),
                p_level(toks, 1nat, i as int) == p_level_rest(toks, 1nat, expr, j as int),
            decreases toks.len() - j,
        {
            let operator = self.peek(j).duplicate();
            let (right, k) = self.term(j + 1)?;
            expr = Expr::Binary { left: Box::new(expr), operator, right: Box::new(right) };
            j = k;
        }
        Ok((expr, j))
    }

    fn term(&self, i: usize) -> (r: Result<(Expr, usize), ParseError>)
        requires
            self.wf(),
            i < self.tokens@.len(),
        ensures
            agrees(r, self.tokens@, p_level(self.tokens@, 2nat, i as int)),
            moved(r, i as int, self.tokens@.len() as int),
        decreases self.tokens@.len() - i, 4nat,
    {
        let ghost toks = self.tokens@;
        let (first, j0) = self.factor(i)?;
        let mut expr = first;
        let mut j = j0;
        while self.check(j, TokenType::Minus) || self.check(j, TokenType::Plus)
            invariant
                self.wf(),
                self.tokens@ == toks,
                i < j < toks.len(),
                p_level(toks, 2nat, i as int) == p_level_rest(toks, 2nat, expr, j as int),
            decreases toks.len() - j,
        {
            let operator = self.peek(j).duplicate();
            let (right, k) = self.factor(j + 1)?;
            expr = Expr::Binary { left: Box::new(expr), operator, right: Box::new(right) };
            j = k;
        }
        Ok((expr, j))
    }

    fn factor(&self, i: usize) -> (r: Result<(Expr, usize), ParseError>)
        requires
            self.wf(),
            i < self.tokens@.len(),
        ensures
            agrees(r, self.tokens@, p_level(self.tokens@, 3nat, i as int)),
            moved(r, i as int, self.tokens@.len() as int),
        decreases self.tokens@.len() - i, 3nat,
    {
        let ghost toks = self.tokens@;
        assert(p_level(toks, 4nat, i as int) == p_unary(toks, i as int));
        let (first, j0) = self.unary(i)?;
        let mut expr = first;
        let mut j = j0;
        while self.check(j, TokenType::Slash) || self.check(j, TokenType::Star)
            invariant
                self.wf(),
                self.tokens@ == toks,
                i < j < toks.len(),
                p_level(toks, 3nat, i as int) == p_level_rest(toks, 3nat, expr, j as int),
            decreases toks.len() - j,
        {
            let operator = self.peek(j).duplicate();
            assert(p_level(toks, 4nat, j + 1) == p_unary(toks, j + 1));
            let (right, k) = self.unary(j + 1)?;
            expr = Expr::Binary { left: Box::new(expr), operator, right: Box::new(right) };
            j = k;
        }
        Ok((expr, j))
    }

    fn unary(&self, i: usize) -> (r: Result<(Expr, usize), ParseError>)
        requires
            self.wf(),
            i < self.tokens@.len(),
        ensures
            agrees(r, self.tokens@, p_unary(self.tokens@, i as int)),
            moved(r, i as int, self.tokens@.len() as int),
        decreases self.tokens@.len() - i, 1nat,
    {
        if self.check(i, TokenType::Bang) || self.check(i, TokenType::Minus) {
            let operator = self.peek(i).duplicate();
            let (right, j) = self.unary(i + 1)?;
            return Ok((Expr::Unary { operator, right: Box::new(right) }, j));
        }
        self.primary(i)
    }

    fn primary(&self, i: usize) -> (r: Result<(Expr, usize), ParseError>)
        requires
            self.wf(),
            i < self.tokens@.len(),
        ensures
            agrees(r, self.tokens@, p_primary(self.tokens@, i as int)),
            moved(r, i as int, self.tokens@.len() as int),
        decreases self.tokens@.len() - i, 0nat,
    {
        if self.check(i, TokenType::False) {
            return Ok((Expr::Literal(Some(Literal::False)), i + 1));
        }
        if self.check(i, TokenType::True) {
            return Ok((Expr::Literal(Some(Literal::True)), i + 1));
        }
        if self.check(i, TokenType::Nil) {
            return Ok((Expr::Literal(Some(Literal::Nil)), i + 1));
        }
        if self.check(i, TokenType::Number) {
            return Ok((Expr::Literal(Some(Literal::Number(self.payload(i)))), i + 1));
        }
        if self.check(i, TokenType::String) {
            return Ok((Expr::Literal(Some(Literal::String(self.payload(i)))), i + 1));
        }
        if self.check(i, TokenType::LeftParen) {
            let (expr, j) = self.expression(i + 1)?;
            self.consume(j, TokenType::RightParen, "Expect ')' after expression.")?;
            return Ok((Expr::Grouping { expression: Box::new(expr) }, j + 1));
        }
        Err(self.error_at(i, "Expect expression."))
    }

    /// The payload of the literal token at `i`.
    fn payload(&self, i: usize) -> (r: String)
        requires
            i < self.tokens@.len(),
        ensures
            r == payload(self.tokens@[i as int]),
    {
        match &self.tokens[i].literal {
            Some(s) => s.clone(),
            None => self.tokens[i].lexeme.clone(),
        }
    }

    fn error_at(&self, i: usize, message: &str) -> (r: ParseError)
        requires
            i < self.tokens@.len(),
        ensures
            error_is(r, self.tokens@, i as int, message@),
    {
        ParseError { token: self.peek(i).duplicate(), message: String::from_str(message) }
    }

    fn consume(&self, i: usize, token_type: TokenType, message: &str) -> (r: Result<(), ParseError>)
        requires
            self.wf(),
            i < self.tokens@.len(),
            token_type != TokenType::EOF,
        ensures
            r is Ok <==> kind_at(self.tokens@, i as int) == token_type,
            r is Err ==> error_is(r->Err_0, self.tokens@, i as int, message@),
            r is Ok ==> i + 1 < self.tokens@.len(),
    {
        if self.check(i, token_type) {
            Ok(())
        } else {
            Err(self.error_at(i, message))
        }
    }

    fn peek(&self, i: usize) -> (r: &Token)
        requires
            i < self.tokens@.len(),
        ensures
            *r == self.tokens@[i as int],
    {
        &self.tokens[i]
    }

    fn is_at_end(&self, i: usize) -> (r: bool)
        requires
            i < self.tokens@.len(),
        ensures
            r == (self.tokens@[i as int].token_type == TokenType::EOF),
    {
        self.peek(i).token_type == TokenType::EOF
    }

    /// Whether the token at `i` has the given kind; never at the end.
    fn check(&self, i: usize, token_type: TokenType) -> (r: bool)
        requires
            self.wf(),
            i < self.tokens@.len(),
            token_type != TokenType::EOF,
        ensures
            r == (kind_at(self.tokens@, i as int) == token_type),
            r ==> i + 1 < self.tokens@.len(),
    {
        if self.is_at_end(i) {
            return false;
        }
        self.peek(i).token_type == token_type
    }
}

} // verus!
