use vstd::prelude::*;
use vstd::string::StrSliceExecFns;
use crate::error_reporter::{report_text, ErrorReporter};
use crate::lexical::{
    comment_close, digits_end, find_char, is_alpha, is_alpha_numeric, is_digit, keyword,
    lemma_comment_close, lemma_digits_end, lemma_find_char, lemma_step_advances, lemma_word_end,
    newlines, number_end, option_seq, scan_from, step, token_at, word_end, end_token,
};
use crate::text::{chars_of, push_all, push_char, text_of};
use crate::token::{Token, TokenType, TokenView};

verus! {

pub open spec fn token_views(v: Seq<Token>) -> Seq<TokenView> {
    v.map_values(|t: Token| t@)
}

/// Turns source text into tokens, one lexical unit at a time.
pub struct Scanner {
    source: Vec<char>,
    /// The tokens scanned so far.
    pub tokens: Vec<Token>,
    start: usize,
    current: usize,
    line: usize,
}

impl Scanner {
    /// The characters being scanned.
    pub closed spec fn text(&self) -> Seq<char> {
        self.source@
    }

    /// Where the next lexical unit starts.
    pub closed spec fn position(&self) -> int {
        self.current as int
    }

    /// The source line at that position.
    pub closed spec fn line_number(&self) -> nat {
        self.line as nat
    }

    /// The tokens scanned so far, as models.
    pub closed spec fn scanned(&self) -> Seq<TokenView> {
        token_views(self.tokens@)
    }

    pub closed spec fn wf(&self) -> bool {
        &&& self.source@.len() < usize::MAX
        &&& self.start <= self.current <= self.source@.len()
        &&& 1 <= self.line <= self.current + 1
    }

    pub fn new(source: String) -> (r: Scanner)
        requires
            source@.len() < usize::MAX,
        ensures
            r.wf(),
            r.text() == source@,
            r.position() == 0,
            r.line_number() == 1,
            r.scanned() == Seq::<TokenView>::empty(),
    {
        let r = Scanner {
            source: chars_of(source.as_str()),
            tokens: Vec::new(),
            start: 0,
            current: 0,
            line: 1,
        };
        assert(r.scanned() =~= Seq::<TokenView>::empty());
        r
    }

    /// Gives the scanned tokens back.
    pub fn into_tokens(self) -> (r: Vec<Token>)
        ensures
            token_views(r@) == self.scanned(),
    {
        self.tokens
    }

    /// Scans from the current position to the end of the text and appends
    /// the end-of-input token; lexical errors go to `reporter` and do not
    /// stop the scan.
    pub fn scan_tokens(&mut self, reporter: &mut ErrorReporter)
        requires
            old(self).wf(),
        ensures
            final(self).wf(),
            final(self).text() == old(self).text(),
            final(self).scanned() == old(self).scanned() + scan_from(
                old(self).text(),
                old(self).position(),
                old(self).line_number(),
            ).0,
            final(reporter).texts() == old(reporter).texts() + scan_from(
                old(self).text(),
                old(self).position(),
                old(self).line_number(),
            ).1,
            final(reporter).had_error == (old(reporter).had_error || scan_from(
                old(self).text(),
                old(self).position(),
                old(self).line_number(),
            ).1.len() > 0),
    {
        let ghost s = self.source@;
        let ghost all = scan_from(s, self.current as int, self.line as nat);
        let ghost toks0 = token_views(self.tokens@);
        let ghost texts0 = reporter.texts();
        let ghost err0 = reporter.had_error;
        while !self.is_at_end()
            invariant
                self.wf(),
                self.source@ == s,
                toks0 + all.0 == token_views(self.tokens@) + scan_from(s, self.current as int, self.line as nat).0,
                texts0 + all.1 == reporter.texts() + scan_from(s, self.current as int, self.line as nat).1,
                reporter.had_error == (err0 || reporter.texts().len() > texts0.len()),
                reporter.texts().len() >= texts0.len(),
            decreases s.len() - self.current,
        {
            self.start = self.current;
            let ghost before = token_views(self.tokens@);
            let ghost before_texts = reporter.texts();
            let ghost st = step(s, self.current as int, self.line as nat);
            proof {
                lemma_step_advances(s, self.current as int, self.line as nat);
            }
            self.scan_token(reporter);
            proof {
                let rest = scan_from(s, st.next, st.line);
                assert(token_views(self.tokens@) == before + option_seq(st.token));
                assert(toks0 + all.0 == token_views(self.tokens@) + rest.0) by {
                    assert(before + (option_seq(st.token) + rest.0) == (before + option_seq(st.token)) + rest.0);
                }
                assert(texts0 + all.1 == reporter.texts() + rest.1) by {
                    assert(before_texts + (option_seq(st.error) + rest.1) == (before_texts + option_seq(st.error)) + rest.1);
                }
            }
        }
        let eof = Token::new(TokenType::EOF, String::new(), None, self.line);
        let ghost before = self.tokens@;
        self.tokens.push(eof);
        proof {
            assert(token_views(self.tokens@) == token_views(before).push(end_token(self.line as nat)));
            assert(toks0 + all.0 == token_views(self.tokens@));
            assert(texts0 + all.1 == reporter.texts());
        }
    }

    fn is_at_end(&self) -> (r: bool)
        ensures
            r == (self.current >= self.source@.len()),
    {
        self.current >= self.source.len()
    }

    fn scan_token(&mut self, reporter: &mut ErrorReporter)
        requires
            old(self).wf(),
            old(self).start == old(self).current < old(self).source@.len(),
        ensures
            final(self).wf(),
            final(self).source@ == old(self).source@,
            ({
                let st = step(old(self).source@, old(self).current as int, old(self).line as nat);
                &&& final(self).current == st.next
                &&& final(self).line == st.line
                &&& token_views(final(self).tokens@) == token_views(old(self).tokens@) + option_seq(st.token)
                &&& final(reporter).texts() == old(reporter).texts() + option_seq(st.error)
                &&& final(reporter).had_error == (old(reporter).had_error || st.error is Some)
            }),
    {
        let ghost s = self.source@;
        let ghost i = self.current as int;
        let ghost st = step(s, i, self.line as nat);
        let ghost toks0 = token_views(self.tokens@);
        proof {
            lemma_step_advances(s, i, self.line as nat);
        }
        let c = self.advance();
        match c {
            '(' => self.add_token(TokenType::LeftParen, None),
            ')' => self.add_token(TokenType::RightParen, None),
            '{' => self.add_token(TokenType::LeftBrace, None),
            '}' => self.add_token(TokenType::RightBrace, None),
            ',' => self.add_token(TokenType::Comma, None),
            '.' => self.add_token(TokenType::Dot, None),
            '-' => self.add_token(TokenType::Minus, None),
            '+' => self.add_token(TokenType::Plus, None),
            ';' => self.add_token(TokenType::Semicolon, None),
            '*' => self.add_token(TokenType::Star, None),
            '?' => self.add_token(TokenType::Question, None),
            ':' => self.add_token(TokenType::Colon, None),
            '!' => {
                let token_type = if self.match_char('=') {
                    TokenType::BangEqual
                } else {
                    TokenType::Bang
                };
                self.add_token(token_type, None);
            },
            '=' => {
                let token_type = if self.match_char('=') {
                    TokenType::EqualEqual
                } else {
                    TokenType::Equal
                };
                self.add_token(token_type, None);
            },
            '<' => {
                let token_type = if self.match_char('=') {
                    TokenType::LessEqual
                } else {
                    TokenType::Less
                };
                self.add_token(token_type, None);
            },
            '>' => {
                let token_type = if self.match_char('=') {
                    TokenType::GreaterEqual
                } else {
                    TokenType::Greater
                };
                self.add_token(token_type, None);
            },
            '/' => {
                if self.match_char('/') {
                    self.line_comment();
                } else if self.match_char('*') {
                    self.block_comment(reporter);
                } else {
                    self.add_token(TokenType::Slash, None);
                }
            },
            ' ' | '\r' | '\t' => {},
            '\n' => {
                self.line = self.line + 1;
            },
            '"' => self.string(reporter),
            _ => {
                if self.is_digit(c) {
                    self.number();
                } else if self.is_alpha(c) {
                    self.identifier();
                } else {
                    let mut message = String::new();
                    push_all(&mut message, "Unexpected character ");
                    push_char(&mut message, c);
                    reporter.error(self.line, message.as_str());
                }
            },
        }
    }

    /// Skips a `//` comment up to the end of its line.
    fn line_comment(&mut self)
        requires
            old(self).wf(),
            old(self).current >= 2,
        ensures
            final(self).wf(),
            final(self).source@ == old(self).source@,
            final(self).start == old(self).start,
            final(self).line == old(self).line,
            final(self).tokens@ == old(self).tokens@,
            final(self).current == find_char(old(self).source@, old(self).current as int, '\n'),
    {
        let ghost s = self.source@;
        let ghost j = self.current as int;
        while self.peek() != '\n' && !self.is_at_end()
            invariant
                self.wf(),
                self.source@ == s,
                self.start == old(self).start,
                self.line == old(self).line,
                self.tokens@ == old(self).tokens@,
                j <= self.current,
                find_char(s, self.current as int, '\n') == find_char(s, j, '\n'),
            decreases s.len() - self.current,
        {
            self.advance();
        }
    }

    /// Skips a block comment through the first `*/`; one that runs to the
    /// end of the text is reported.
    fn block_comment(&mut self, reporter: &mut ErrorReporter)
        requires
            old(self).wf(),
            old(self).current >= 2,
        ensures
            final(self).wf(),
            final(self).source@ == old(self).source@,
            final(self).start == old(self).start,
            final(self).tokens@ == old(self).tokens@,
            ({
                let s = old(self).source@;
                let k = comment_close(s, old(self).current as int);
                let l = (old(self).line + newlines(s, old(self).current as int, k)) as nat;
                &&& final(self).line == l
                &&& if k < s.len() {
                    &&& final(self).current == k + 2
                    &&& final(reporter).texts() == old(reporter).texts()
                    &&& final(reporter).had_error == old(reporter).had_error
                } else {
                    &&& final(self).current == k
                    &&& final(reporter).texts() == old(reporter).texts().push(
                        report_text(l, Seq::empty(), "Unterminated comment"@),
                    )
                    &&& final(reporter).had_error
                }
            }),
    {
        let ghost s = self.source@;
        let ghost j = self.current as int;
        proof {
            lemma_comment_close(s, j);
        }
        while !(self.peek() == '*' && self.peek_next() == '/') && !self.is_at_end()
            invariant
                self.wf(),
                self.source@ == s,
                self.start == old(self).start,
                self.tokens@ == old(self).tokens@,
                j <= self.current,
                comment_close(s, self.current as int) == comment_close(s, j),
                self.line == old(self).line + newlines(s, j, self.current as int),
            decreases s.len() - self.current,
        {
            let c = self.advance();
            if c == '\n' {
                self.line = self.line + 1;
            }
        }
        if self.is_at_end() {
            reporter.error(self.line, "Unterminated comment");
        } else {
            self.advance();
            self.advance();
        }
    }

    fn string(&mut self, reporter: &mut ErrorReporter)
        requires
            old(self).wf(),
            old(self).current == old(self).start + 1,
            old(self).source@[old(self).start as int] == '"',
        ensures
            final(self).wf(),
            final(self).source@ == old(self).source@,
            ({
                let s = old(self).source@;
                let i = old(self).start as int;
                let st = step(s, i, (old(self).line) as nat);
                &&& final(self).current == st.next
                &&& final(self).line == st.line
                &&& token_views(final(self).tokens@) == token_views(old(self).tokens@) + option_seq(st.token)
                &&& final(reporter).texts() == old(reporter).texts() + option_seq(st.error)
                &&& final(reporter).had_error == (old(reporter).had_error || st.error is Some)
            }),
    {
        let ghost s = self.source@;
        let ghost j = self.current as int;
        proof {
            lemma_find_char(s, j, '"');
        }
        while self.peek() != '"' && !self.is_at_end()
            invariant
                self.wf(),
                self.source@ == s,
                self.start == old(self).start,
                self.tokens@ == old(self).tokens@,
                j <= self.current,
                find_char(s, self.current as int, '"') == find_char(s, j, '"'),
                self.line == old(self).line + newlines(s, j, self.current as int),
            decreases s.len() - self.current,
        {
            let c = self.advance();
            if c == '\n' {
                self.line = self.line + 1;
            }
        }
        if self.is_at_end() {
            reporter.error(self.line, "Unterminated string.");
            let value = text_of(&self.source, self.start + 1, self.current);
            self.add_token(TokenType::String, Some(value));
        } else {
            self.advance();
            let value = text_of(&self.source, self.start + 1, self.current - 1);
            self.add_token(TokenType::String, Some(value));
        }
    }

    fn number(&mut self)
        requires
            old(self).wf(),
            old(self).current == old(self).start + 1,
            is_digit(old(self).source@[old(self).start as int]),
        ensures
            final(self).wf(),
            final(self).source@ == old(self).source@,
            final(self).line == old(self).line,
            ({
                let s = old(self).source@;
                let i = old(self).start as int;
                let e = number_end(s, i);
                &&& final(self).current == e
                &&& token_views(final(self).tokens@) == token_views(old(self).tokens@).push(
                    token_at(TokenType::Number, s, i, e, Some(s.subrange(i, e)), old(self).line as nat),
                )
            }),
    {
        let ghost s = self.source@;
        let ghost j = self.current as int;
        proof {
            lemma_digits_end(s, j);
        }
        while self.is_digit(self.peek())
            invariant
                self.wf(),
                self.source@ == s,
                self.start == old(self).start,
                self.line == old(self).line,
                self.tokens@ == old(self).tokens@,
                j <= self.current,
                digits_end(s, self.current as int) == digits_end(s, j),
            decreases s.len() - self.current,
        {
            self.advance();
        }
        if self.peek() == '.' && self.is_digit(self.peek_next()) {
            self.advance();
            let ghost k = self.current as int;
            proof {
                lemma_digits_end(s, k);
            }
            while self.is_digit(self.peek())
                invariant
                    self.wf(),
                    self.source@ == s,
                    self.start == old(self).start,
                    self.line == old(self).line,
                    self.tokens@ == old(self).tokens@,
                    k <= self.current,
                    digits_end(s, self.current as int) == digits_end(s, k),
                decreases s.len() - self.current,
            {
                self.advance();
            }
        }
        let value = text_of(&self.source, self.start, self.current);
        self.add_token(TokenType::Number, Some(value));
    }

    fn identifier(&mut self)
        requires
            old(self).wf(),
            old(self).current == old(self).start + 1,
        ensures
            final(self).wf(),
            final(self).source@ == old(self).source@,
            final(self).line == old(self).line,
            ({
                let s = old(self).source@;
                let i = old(self).start as int;
                let e = word_end(s, i + 1);
                &&& final(self).current == e
                &&& token_views(final(self).tokens@) == token_views(old(self).tokens@).push(
                    token_at(keyword(s.subrange(i, e)), s, i, e, None, old(self).line as nat),
                )
            }),
    {
        let ghost s = self.source@;
        let ghost j = self.current as int;
        proof {
            lemma_word_end(s, j);
        }
        while self.is_alpha_numeric(self.peek())
            invariant
                self.wf(),
                self.source@ == s,
                self.start == old(self).start,
                self.line == old(self).line,
                self.tokens@ == old(self).tokens@,
                j <= self.current,
                word_end(s, self.current as int) == word_end(s, j),
            decreases s.len() - self.current,
        {
            self.advance();
        }
        let token_type = keyword_kind(&self.source, self.start, self.current);
        self.add_token(token_type, None);
    }

    fn match_char(&mut self, expected: char) -> (r: bool)
        requires
            old(self).wf(),
        ensures
            final(self).wf(),
            final(self).source@ == old(self).source@,
            final(self).start == old(self).start,
            final(self).line == old(self).line,
            final(self).tokens@ == old(self).tokens@,
            r == (old(self).current < old(self).source@.len()
                && old(self).source@[old(self).current as int] == expected),
            final(self).current == if r { old(self).current + 1 } else { old(self).current as int },
    {
        if self.is_at_end() {
            return false;
        }
        if self.source[self.current] != expected {
            return false;
        }
        self.current = self.current + 1;
        true
    }

    fn peek(&self) -> (c: char)
        requires
            self.wf(),
        ensures
            c == if self.current < self.source@.len() { self.source@[self.current as int] } else { '\0' },
    {
        if self.is_at_end() {
            return '\0';
        }
        self.source[self.current]
    }

    fn peek_next(&self) -> (c: char)
        requires
            self.wf(),
        ensures
            c == if self.current + 1 < self.source@.len() {
                self.source@[self.current + 1]
            } else {
                '\0'
            },
    {
        if self.current + 1 >= self.source.len() {
            return '\0';
        }
        self.source[self.current + 1]
    }

    fn is_alpha(&self, c: char) -> (r: bool)
        ensures
            r == is_alpha(c),
    {
        (c >= 'a' && c <= 'z') || (c >= 'A' && c <= 'Z') || c == '_'
    }

    fn is_alpha_numeric(&self, c: char) -> (r: bool)
        ensures
            r == is_alpha_numeric(c),
    {
        self.is_alpha(c) || self.is_digit(c)
    }

    fn is_digit(&self, c: char) -> (r: bool)
        ensures
            r == is_digit(c),
    {
        c >= '0' && c <= '9'
    }

    fn advance(&mut self) -> (c: char)
        requires
            old(self).wf(),
            old(self).current < old(self).source@.len(),
        ensures
            final(self).wf(),
            final(self).source@ == old(self).source@,
            final(self).start == old(self).start,
            final(self).line == old(self).line,
            final(self).tokens@ == old(self).tokens@,
            final(self).current == old(self).current + 1,
            c == old(self).source@[old(self).current as int],
    {
        self.current = self.current + 1;
        self.source[self.current - 1]
    }

    fn add_token(&mut self, token_type: TokenType, literal: Option<String>)
        requires
            old(self).wf(),
        ensures
            final(self).wf(),
            final(self).source@ == old(self).source@,
            final(self).start == old(self).start,
            final(self).current == old(self).current,
            final(self).line == old(self).line,
            token_views(final(self).tokens@) == token_views(old(self).tokens@).push(
                TokenView {
                    token_type,
                    lexeme: old(self).source@.subrange(old(self).start as int, old(self).current as int),
                    literal: crate::token::literal_view(literal),
                    line: old(self).line as nat,
                },
            ),
    {
        let text = text_of(&self.source, self.start, self.current);
        let ghost before = self.tokens@;
        self.tokens.push(Token::new(token_type, text, literal, self.line));
        proof {
            assert(token_views(self.tokens@) == token_views(before).push(self.tokens@.last()@));
        }
    }
}

/// Whether `s[from..to]` is the text `w`.
fn text_equals(s: &Vec<char>, from: usize, to: usize, w: &str) -> (r: bool)
    requires
        from <= to <= s@.len(),
    ensures
        r == (s@.subrange(from as int, to as int) == w@),
{
    let n = w.unicode_len();
    if to - from != n {
        return false;
    }
    let mut k: usize = 0;
    while k < n
        invariant
            from <= to <= s@.len(),
            to - from == n == w@.len(),
            k <= n,
            forall|m: int| 0 <= m < k ==> s@[from + m] == w@[m],
        decreases n - k,
    {
        if s[from + k] != w.get_char(k) {
            assert(s@.subrange(from as int, to as int)[k as int] != w@[k as int]);
            return false;
        }
        k = k + 1;
    }
    assert(s@.subrange(from as int, to as int) =~= w@);
    true
}

/// The kind of the word `s[from..to]`.
fn keyword_kind(s: &Vec<char>, from: usize, to: usize) -> (r: TokenType)
    requires
        from <= to <= s@.len(),
    ensures
        r == keyword(s@.subrange(from as int, to as int)),
{
    if text_equals(s, from, to, "and") { TokenType::And }
    else if text_equals(s, from, to, "class") { TokenType::Class }
    else if text_equals(s, from, to, "else") { TokenType::Else }
    else if text_equals(s, from, to, "false") { TokenType::False }
    else if text_equals(s, from, to, "for") { TokenType::For }
    else if text_equals(s, from, to, "fun") { TokenType::Fun }
    else if text_equals(s, from, to, "if") { TokenType::If }
    else if text_equals(s, from, to, "nil") { TokenType::Nil }
    else if text_equals(s, from, to, "or") { TokenType::Or }
    else if text_equals(s, from, to, "print") { TokenType::Print }
    else if text_equals(s, from, to, "return") { TokenType::Return }
    else if text_equals(s, from, to, "super") { TokenType::Super }
    else if text_equals(s, from, to, "this") { TokenType::This }
    else if text_equals(s, from, to, "true") { TokenType::True }
    else if text_equals(s, from, to, "var") { TokenType::Var }
    else if text_equals(s, from, to, "while") { TokenType::While }
    else { TokenType::Identifier }
}

} // verus!
