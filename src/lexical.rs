//! What the scanner produces, stated over sequences of characters.
use vstd::prelude::*;
use crate::error_reporter::report_text;
use crate::token::{TokenType, TokenView};

verus! {

pub open spec fn is_digit(c: char) -> bool {
    '0' <= c && c <= '9'
}

pub open spec fn is_alpha(c: char) -> bool {
    ('a' <= c && c <= 'z') || ('A' <= c && c <= 'Z') || c == '_'
}

pub open spec fn is_alpha_numeric(c: char) -> bool {
    is_alpha(c) || is_digit(c)
}

/// The end of the run of digits that starts at `j`.
pub open spec fn digits_end(s: Seq<char>, j: int) -> int
    decreases s.len() - j,
{
    if 0 <= j < s.len() && is_digit(s[j]) {
        digits_end(s, j + 1)
    } else {
        j
    }
}

/// The end of the run of letters, digits and underscores that starts at `j`.
pub open spec fn word_end(s: Seq<char>, j: int) -> int
    decreases s.len() - j,
{
    if 0 <= j < s.len() && is_alpha_numeric(s[j]) {
        word_end(s, j + 1)
    } else {
        j
    }
}

/// The end of a number literal whose first digit is at `i`: digits, then
/// optionally `.` and more digits.
pub open spec fn number_end(s: Seq<char>, i: int) -> int {
    let e = digits_end(s, i + 1);
    if e + 1 < s.len() && s[e] == '.' && is_digit(s[e + 1]) {
        digits_end(s, e + 1)
    } else {
        e
    }
}

/// The first position at or after `j` that holds `c`, or the length of `s`.
pub open spec fn find_char(s: Seq<char>, j: int, c: char) -> int
    decreases s.len() - j,
{
    if 0 <= j < s.len() && s[j] != c {
        find_char(s, j + 1, c)
    } else if j < 0 {
        0
    } else {
        j
    }
}

/// The first position at or after `j` where `*/` starts, or the length of `s`.
pub open spec fn comment_close(s: Seq<char>, j: int) -> int
    decreases s.len() - j,
{
    if j < 0 {
        0
    } else if j >= s.len() {
        j
    } else if j + 1 < s.len() && s[j] == '*' && s[j + 1] == '/' {
        j
    } else {
        comment_close(s, j + 1)
    }
}

/// The number of line breaks in `s[a..b]`.
pub open spec fn newlines(s: Seq<char>, a: int, b: int) -> nat
    decreases b - a,
{
    if b <= a {
        0
    } else {
        newlines(s, a, b - 1) + if s[b - 1] == '\n' { 1nat } else { 0nat }
    }
}

/// The kind of a word: a reserved word's own kind, or `Identifier`.
pub open spec fn keyword(t: Seq<char>) -> TokenType {
    if t == "and"@ { TokenType::And }
    else if t == "class"@ { TokenType::Class }
    else if t == "else"@ { TokenType::Else }
    else if t == "false"@ { TokenType::False }
    else if t == "for"@ { TokenType::For }
    else if t == "fun"@ { TokenType::Fun }
    else if t == "if"@ { TokenType::If }
    else if t == "nil"@ { TokenType::Nil }
    else if t == "or"@ { TokenType::Or }
    else if t == "print"@ { TokenType::Print }
    else if t == "return"@ { TokenType::Return }
    else if t == "super"@ { TokenType::Super }
    else if t == "this"@ { TokenType::This }
    else if t == "true"@ { TokenType::True }
    else if t == "var"@ { TokenType::Var }
    else if t == "while"@ { TokenType::While }
    else { TokenType::Identifier }
}

/// The kind of a character that is a token on its own.
pub open spec fn single_kind(c: char) -> Option<TokenType> {
    if c == '(' { Some(TokenType::LeftParen) }
    else if c == ')' { Some(TokenType::RightParen) }
    else if c == '{' { Some(TokenType::LeftBrace) }
    else if c == '}' { Some(TokenType::RightBrace) }
    else if c == ',' { Some(TokenType::Comma) }
    else if c == '.' { Some(TokenType::Dot) }
    else if c == '-' { Some(TokenType::Minus) }
    else if c == '+' { Some(TokenType::Plus) }
    else if c == ';' { Some(TokenType::Semicolon) }
    else if c == '*' { Some(TokenType::Star) }
    else if c == '?' { Some(TokenType::Question) }
    else if c == ':' { Some(TokenType::Colon) }
    else { None }
}

/// The kinds of `c` alone and of `c` followed by `=`, for the characters
/// that may start a two-character operator.
pub open spec fn operator_kinds(c: char) -> Option<(TokenType, TokenType)> {
    if c == '!' { Some((TokenType::Bang, TokenType::BangEqual)) }
    else if c == '=' { Some((TokenType::Equal, TokenType::EqualEqual)) }
    else if c == '<' { Some((TokenType::Less, TokenType::LessEqual)) }
    else if c == '>' { Some((TokenType::Greater, TokenType::GreaterEqual)) }
    else { None }
}

/// What one scanning step yields: at most one token, at most one
/// diagnostic, where the next step starts, and the line there.
pub struct Step {
    pub token: Option<TokenView>,
    pub error: Option<Seq<char>>,
    pub next: int,
    pub line: nat,
}

pub open spec fn token_at(kind: TokenType, s: Seq<char>, from: int, to: int, literal: Option<Seq<char>>, line: nat) -> TokenView {
    TokenView { token_type: kind, lexeme: s.subrange(from, to), literal, line }
}

pub open spec fn skip(next: int, line: nat) -> Step {
    Step { token: None, error: None, next, line }
}

pub open spec fn emit(t: TokenView, next: int, line: nat) -> Step {
    Step { token: Some(t), error: None, next, line }
}

/// One step of the scanner on the lexical unit that starts at `i`.
pub open spec fn step(s: Seq<char>, i: int, line: nat) -> Step {
    let c = s[i];
    let has_next = i + 1 < s.len();
    if single_kind(c) is Some {
        emit(token_at(single_kind(c)->0, s, i, i + 1, None, line), i + 1, line)
    } else if operator_kinds(c) is Some {
        let (one, two) = operator_kinds(c)->0;
        if has_next && s[i + 1] == '=' {
            emit(token_at(two, s, i, i + 2, None, line), i + 2, line)
        } else {
            emit(token_at(one, s, i, i + 1, None, line), i + 1, line)
        }
    } else if c == '/' {
        if has_next && s[i + 1] == '/' {
            skip(find_char(s, i + 2, '\n'), line)
        } else if has_next && s[i + 1] == '*' {
            let k = comment_close(s, i + 2);
            let l = line + newlines(s, i + 2, k);
            if k < s.len() {
                skip(k + 2, l)
            } else {
                Step {
                    token: None,
                    error: Some(report_text(l, Seq::empty(), "Unterminated comment"@)),
                    next: k,
                    line: l,
                }
            }
        } else {
            emit(token_at(TokenType::Slash, s, i, i + 1, None, line), i + 1, line)
        }
    } else if c == ' ' || c == '\r' || c == '\t' {
        skip(i + 1, line)
    } else if c == '\n' {
        skip(i + 1, line + 1)
    } else if c == '"' {
        let k = find_char(s, i + 1, '"');
        let l = line + newlines(s, i + 1, k);
        if k < s.len() {
            emit(token_at(TokenType::String, s, i, k + 1, Some(s.subrange(i + 1, k)), l), k + 1, l)
        } else {
            Step {
                token: Some(token_at(TokenType::String, s, i, k, Some(s.subrange(i + 1, k)), l)),
                error: Some(report_text(l, Seq::empty(), "Unterminated string."@)),
                next: k,
                line: l,
            }
        }
    } else if is_digit(c) {
        let e = number_end(s, i);
        emit(token_at(TokenType::Number, s, i, e, Some(s.subrange(i, e)), line), e, line)
    } else if is_alpha(c) {
        let e = word_end(s, i + 1);
        emit(token_at(keyword(s.subrange(i, e)), s, i, e, None, line), e, line)
    } else {
        Step {
            token: None,
            error: Some(report_text(line, Seq::empty(), "Unexpected character "@.push(c))),
            next: i + 1,
            line,
        }
    }
}

pub open spec fn option_seq<A>(o: Option<A>) -> Seq<A> {
    match o {
        Some(a) => seq![a],
        None => Seq::empty(),
    }
}

pub open spec fn end_token(line: nat) -> TokenView {
    TokenView { token_type: TokenType::EOF, lexeme: Seq::empty(), literal: None, line }
}

/// The tokens and diagnostics of scanning `s` from position `i` on line
/// `line` to the end, the end-of-input token included.
pub open spec fn scan_from(s: Seq<char>, i: int, line: nat) -> (Seq<TokenView>, Seq<Seq<char>>)
    decreases s.len() - i,
    via scan_from_decreases
{
    if i < 0 || i >= s.len() {
        (seq![end_token(line)], Seq::empty())
    } else {
        let st = step(s, i, line);
        let rest = scan_from(s, st.next, st.line);
        (option_seq(st.token) + rest.0, option_seq(st.error) + rest.1)
    }
}

#[via_fn]
proof fn scan_from_decreases(s: Seq<char>, i: int, line: nat) {
    if !(i < 0 || i >= s.len()) {
        lemma_step_advances(s, i, line);
    }
}

/// The tokens and diagnostics of scanning the whole of `s`.
pub open spec fn scan(s: Seq<char>) -> (Seq<TokenView>, Seq<Seq<char>>) {
    scan_from(s, 0, 1)
}

pub proof fn lemma_digits_end(s: Seq<char>, j: int)
    requires
        0 <= j <= s.len(),
    ensures
        j <= digits_end(s, j) <= s.len(),
    decreases s.len() - j,
{
    if j < s.len() && is_digit(s[j]) {
        lemma_digits_end(s, j + 1);
    }
}

pub proof fn lemma_word_end(s: Seq<char>, j: int)
    requires
        0 <= j <= s.len(),
    ensures
        j <= word_end(s, j) <= s.len(),
    decreases s.len() - j,
{
    if j < s.len() && is_alpha_numeric(s[j]) {
        lemma_word_end(s, j + 1);
    }
}

pub proof fn lemma_find_char(s: Seq<char>, j: int, c: char)
    requires
        0 <= j <= s.len(),
    ensures
        j <= find_char(s, j, c) <= s.len(),
        find_char(s, j, c) < s.len() ==> s[find_char(s, j, c)] == c,
    decreases s.len() - j,
{
    if j < s.len() && s[j] != c {
        lemma_find_char(s, j + 1, c);
    }
}

pub proof fn lemma_comment_close(s: Seq<char>, j: int)
    requires
        0 <= j <= s.len(),
    ensures
        j <= comment_close(s, j) <= s.len(),
        comment_close(s, j) < s.len() ==> comment_close(s, j) + 1 < s.len(),
    decreases s.len() - j,
{
    if j < s.len() && !(j + 1 < s.len() && s[j] == '*' && s[j + 1] == '/') {
        lemma_comment_close(s, j + 1);
    }
}

pub proof fn lemma_newlines(s: Seq<char>, a: int, b: int)
    requires
        a <= b,
    ensures
        newlines(s, a, b) <= b - a,
    decreases b - a,
{
    if b > a {
        lemma_newlines(s, a, b - 1);
    }
}

/// Every step consumes at least one character and stays within `s`; the
/// line grows by at most the number of characters consumed.
pub proof fn lemma_step_advances(s: Seq<char>, i: int, line: nat)
    requires
        0 <= i < s.len(),
    ensures
        i < step(s, i, line).next <= s.len(),
        line <= step(s, i, line).line <= line + (step(s, i, line).next - i),
{
    let c = s[i];
    if c == '/' && i + 1 < s.len() && s[i + 1] == '/' {
        lemma_find_char(s, i + 2, '\n');
    } else if c == '/' && i + 1 < s.len() && s[i + 1] == '*' {
        lemma_comment_close(s, i + 2);
        lemma_newlines(s, i + 2, comment_close(s, i + 2));
    } else if c == '"' {
        lemma_find_char(s, i + 1, '"');
        lemma_newlines(s, i + 1, find_char(s, i + 1, '"'));
    } else if is_digit(c) {
        lemma_digits_end(s, i + 1);
        let e = digits_end(s, i + 1);
        if e + 1 < s.len() && s[e] == '.' && is_digit(s[e + 1]) {
            lemma_digits_end(s, e + 1);
        }
    } else if is_alpha(c) {
        lemma_word_end(s, i + 1);
    }
}

/// Scanning always ends with the end-of-input token.
pub proof fn lemma_scan_ends_with_eof(s: Seq<char>, i: int, line: nat)
    ensures
        scan_from(s, i, line).0.len() > 0,
        scan_from(s, i, line).0.last().token_type == TokenType::EOF,
    decreases s.len() - i,
{
    if !(i < 0 || i >= s.len()) {
        let st = step(s, i, line);
        lemma_step_advances(s, i, line);
        lemma_scan_ends_with_eof(s, st.next, st.line);
        let rest = scan_from(s, st.next, st.line).0;
        assert((option_seq(st.token) + rest).last() == rest.last());
    }
}

} // verus!
