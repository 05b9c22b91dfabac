use vstd::prelude::*;
use crate::ast::Stmt;
use crate::error_reporter::{place_of, report_text, ErrorReporter};
use crate::grammar::p_program;
use crate::lexical::{lemma_scan_ends_with_eof, scan};
use crate::parser::{error_is, ParseError, Parser};
use crate::scanner::{token_views, Scanner};
use crate::token::Token;

verus! {

/// One run of the front end: text to tokens to a program, with the
/// diagnostics of the run.
pub struct Lox {
    pub error_reporter: ErrorReporter,
}

impl Lox {
    pub fn new() -> (r: Lox)
        ensures
            !r.error_reporter.had_error,
            r.error_reporter.texts() == Seq::<Seq<char>>::empty(),
    {
        Lox { error_reporter: ErrorReporter::new() }
    }

    /// Scans `source` and parses the tokens as a program. Lexical errors
    /// are reported and do not stop the run; a syntax error ends the parse
    /// and is reported.
    pub fn run(&mut self, source: String) -> (r: (Vec<Token>, Result<Vec<Stmt>, ParseError>))
        requires
            source@.len() < usize::MAX,
        ensures
            token_views(r.0@) == scan(source@).0,
            ({
                let lexical = old(self).error_reporter.texts() + scan(source@).1;
                match p_program(r.0@, 0) {
                    Ok(stmts) => r.1 is Ok && r.1->Ok_0@ == stmts && final(self).error_reporter.texts() == lexical
                        && final(self).error_reporter.had_error == (old(self).error_reporter.had_error
                        || scan(source@).1.len() > 0),
                    Err((at, m)) => r.1 is Err && error_is(r.1->Err_0, r.0@, at, m)
                        && final(self).error_reporter.had_error
                        && final(self).error_reporter.texts() == lexical.push(
                        report_text(r.0@[at].line as nat, place_of(r.0@[at]@), m),
                    ),
                }
            }),
    {
        let mut scanner = Scanner::new(source);
        scanner.scan_tokens(&mut self.error_reporter);
        let tokens = scanner.into_tokens();
        proof {
            lemma_scan_ends_with_eof(source@, 0, 1);
            assert(token_views(tokens@).len() == tokens@.len());
            assert(tokens@.last()@ == token_views(tokens@)[tokens@.len() - 1]);
        }
        let mut parser = Parser::new(tokens);
        let result = parser.parse(&mut self.error_reporter);
        (parser.into_tokens(), result)
    }
}

} // verus!
