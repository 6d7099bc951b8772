use vstd::prelude::*;
use crate::error::ErrorView;
use crate::lexer::{lemma_next_token, LexerView};
use crate::token::TokenView;

verus! {

/// The parser's state as plain values: the lexer's state and the one token
/// of lookahead.
pub struct ParserView {
    pub lexer: LexerView,
    pub current: TokenView,
}

/// Where a sequence of statements ends.
#[derive(Clone, Copy, Debug)]
pub enum Until {
    /// At the end of the input.
    End,
    /// Before `slay`, or at the end of the input.
    Slay,
    /// Before `ick` or `slay`, or at the end of the input.
    SlayOrIck,
}

/// What a parsing step gives: a value or an error, and the state after it.
pub type Step<T> = (Result<T, ErrorView>, ParserView);

/// The failure of one step, as the failure of the step that contains it.
pub open spec fn fail<A, B>(r: Step<A>) -> Step<B> {
    (Err(r.0->Err_0), r.1)
}

/// The error of a step that would not consume input.
pub open spec fn no_progress() -> ErrorView {
    ErrorView::Other("parser made no progress"@)
}

/// The outcome of a step that would not consume input. No parse ends so:
/// the module `progress` proves it.
pub open spec fn stuck<B>(s: ParserView) -> Step<B> {
    (Err(no_progress()), s)
}

impl ParserView {
    /// A bound on the tokens left: the characters not yet read, and one for
    /// a lookahead token that is not the end of the input.
    pub open spec fn measure(self) -> nat {
        self.lexer.remaining() + if self.current == TokenView::EOF {
            0nat
        } else {
            1nat
        }
    }

    /// The line on which the lookahead token ends.
    pub open spec fn line(self) -> usize {
        self.lexer.line
    }

    /// Replaces the lookahead token by the next token of the input.
    pub open spec fn advance(self) -> Step<()> {
        let (t, lexer) = self.lexer.next_token();
        match t {
            Ok(token) => (Ok(()), ParserView { lexer, current: token }),
            Err(e) => (Err(e), ParserView { lexer, current: self.current }),
        }
    }

    /// Steps over the lookahead token if it is `expected`, and fails
    /// otherwise.
    pub open spec fn expect(self, expected: TokenView) -> Step<()> {
        if self.current == expected {
            self.advance()
        } else {
            (
                Err(
                    ErrorView::UnexpectedToken {
                        expected,
                        found: self.current,
                        line: self.line(),
                    },
                ),
                self,
            )
        }
    }

    /// Whether a sequence of statements ends before the lookahead token.
    pub open spec fn at_end(self, until: Until) -> bool {
        match until {
            Until::End => self.current == TokenView::EOF,
            Until::Slay => self.current == TokenView::Slay || self.current == TokenView::EOF,
            Until::SlayOrIck => self.current == TokenView::Ick || self.current
                == TokenView::Slay || self.current == TokenView::EOF,
        }
    }

    /// A general error on the lookahead token's line.
    pub open spec fn general<B>(self, message: Seq<char>) -> Step<B> {
        (Err(ErrorView::GeneralError { line: self.line(), message }), self)
    }

    /// The error for a lookahead token that no rule accepts.
    pub open spec fn unknown<B>(self) -> Step<B> {
        (Err(ErrorView::UnknownUnexpectedToken { found: self.current, line: self.line() }), self)
    }
}

/// Stepping to the next token never raises the measure, and lowers it when
/// the token stepped over is not the end of the input.
pub broadcast proof fn lemma_advance(s: ParserView)
    ensures
        (#[trigger] s.advance()).1.measure() <= s.measure(),
        s.current != TokenView::EOF && s.advance().0 is Ok ==> s.advance().1.measure()
            < s.measure(),
{
    lemma_next_token(s.lexer);
}


/// A failure to step to the next token is an error of the lexer: an
/// unexpected character, or a number out of range.
pub broadcast proof fn lemma_advance_error(s: ParserView)
    ensures
        (#[trigger] s.advance()).0 is Err ==> s.advance().0->Err_0 is GeneralError
            || s.advance().0->Err_0 is LexerUnexpectedChar,
{
    crate::lexer::lemma_next_token_error(s.lexer);
}

} // verus!
