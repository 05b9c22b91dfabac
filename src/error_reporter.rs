use vstd::prelude::*;
use crate::text::{decimal, push_all, push_decimal};
use crate::token::{Token, TokenType};

verus! {

/// The text of one diagnostic: `[line N] Error PLACE: MESSAGE`.
pub open spec fn report_text(line: nat, place: Seq<char>, message: Seq<char>) -> Seq<char> {
    "[line "@ + decimal(line) + "] Error "@ + place + ": "@ + message
}

/// Where a diagnostic anchored to a token points: `at end` for the end of
/// input, the token's text otherwise.
pub open spec fn place_of(t: crate::token::TokenView) -> Seq<char> {
    if t.token_type == TokenType::EOF {
        "at end"@
    } else {
        t.lexeme
    }
}

/// Collects the diagnostics of one run and whether any occurred.
pub struct ErrorReporter {
    pub had_error: bool,
    /// The diagnostics in the order they were reported.
    pub reports: Vec<String>,
}

impl ErrorReporter {
    pub open spec fn texts(&self) -> Seq<Seq<char>> {
        self.reports@.map_values(|s: String| s@)
    }

    pub fn new() -> (r: ErrorReporter)
        ensures
            !r.had_error,
            r.texts() == Seq::<Seq<char>>::empty(),
    {
        let r = ErrorReporter { had_error: false, reports: Vec::new() };
        assert(r.texts() =~= Seq::<Seq<char>>::empty());
        r
    }

    /// Records an error on a source line with no place.
    pub fn error(&mut self, line: usize, message: &str)
        ensures
            final(self).had_error,
            final(self).texts() == old(self).texts().push(
                report_text(line as nat, Seq::empty(), message@),
            ),
    {
        self.report(line, "", message);
        proof {
            reveal_strlit("");
        }
        assert(""@ =~= Seq::<char>::empty());
    }

    /// Records an error anchored to a token.
    pub fn token_error(&mut self, token: &Token, message: &str)
        ensures
            final(self).had_error,
            final(self).texts() == old(self).texts().push(
                report_text(token.line as nat, place_of(token@), message@),
            ),
    {
        if token.token_type == TokenType::EOF {
            self.report(token.line, "at end", message);
            proof {
                reveal_strlit("at end");
            }
        } else {
            self.report(token.line, token.lexeme.as_str(), message);
        }
    }

    fn report(&mut self, line: usize, place: &str, message: &str)
        ensures
            final(self).had_error,
            final(self).texts() == old(self).texts().push(report_text(line as nat, place@, message@)),
    {
        let mut s = String::new();
        push_all(&mut s, "[line ");
        push_decimal(&mut s, line);
        push_all(&mut s, "] Error ");
        push_all(&mut s, place);
        push_all(&mut s, ": ");
        push_all(&mut s, message);
        proof {
            reveal_strlit("[line ");
            reveal_strlit("] Error ");
            reveal_strlit(": ");
        }
        self.reports.push(s);
        self.had_error = true;
        assert(self.texts() =~= old(self).texts().push(report_text(line as nat, place@, message@)));
    }
}

} // verus!
