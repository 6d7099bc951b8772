use vstd::prelude::*;
use vstd::string::*;
use crate::ast::{expr_debug, Expr, ExprView};
use crate::text::{debug_string, integer_text, string_debug, unsigned_to_string};
use crate::token::{token_debug, Token, TokenView};

verus! {

/// Everything that can stop the lexer, the parser or the evaluator. Each
/// variant but `Other` carries the line that was active when it was raised.
#[derive(Debug)]
#[allow(inconsistent_fields)]
pub enum ParseError {
    UnexpectedToken { expected: Token, found: Token, line: usize },
    UnknownUnexpectedToken { found: Token, line: usize },
    UnknownFunction { name: String, line: usize },
    UnknownVariable { name: String, line: usize },
    DivisionByZero { line: usize },
    GeneralError { line: usize, message: String },
    LexerUnexpectedChar { found: String, line: usize },
    ArgumentMismatch { expected: usize, found: usize, line: usize },
    TypeError { expected: Expr, found: Expr, line: usize },
    Other(String),
}

/// The mathematical value of a [`ParseError`].
#[allow(inconsistent_fields)]
pub enum ErrorView {
    UnexpectedToken { expected: TokenView, found: TokenView, line: usize },
    UnknownUnexpectedToken { found: TokenView, line: usize },
    UnknownFunction { name: Seq<char>, line: usize },
    UnknownVariable { name: Seq<char>, line: usize },
    DivisionByZero { line: usize },
    GeneralError { line: usize, message: Seq<char> },
    LexerUnexpectedChar { found: Seq<char>, line: usize },
    ArgumentMismatch { expected: usize, found: usize, line: usize },
    TypeError { expected: ExprView, found: ExprView, line: usize },
    Other(Seq<char>),
}

impl View for ParseError {
    type V = ErrorView;

    open spec fn view(&self) -> ErrorView {
        match self {
            ParseError::UnexpectedToken { expected, found, line } => ErrorView::UnexpectedToken {
                expected: expected@,
                found: found@,
                line: *line,
            },
            ParseError::UnknownUnexpectedToken { found, line } => ErrorView::UnknownUnexpectedToken {
                found: found@,
                line: *line,
            },
            ParseError::UnknownFunction { name, line } => ErrorView::UnknownFunction {
                name: name@,
                line: *line,
            },
            ParseError::UnknownVariable { name, line } => ErrorView::UnknownVariable {
                name: name@,
                line: *line,
            },
            ParseError::DivisionByZero { line } => ErrorView::DivisionByZero { line: *line },
            ParseError::GeneralError { line, message } => ErrorView::GeneralError {
                line: *line,
                message: message@,
            },
            ParseError::LexerUnexpectedChar { found, line } => ErrorView::LexerUnexpectedChar {
                found: found@,
                line: *line,
            },
            ParseError::ArgumentMismatch { expected, found, line } => ErrorView::ArgumentMismatch {
                expected: *expected,
                found: *found,
                line: *line,
            },
            ParseError::TypeError { expected, found, line } => ErrorView::TypeError {
                expected: expected@,
                found: found@,
                line: *line,
            },
            ParseError::Other(message) => ErrorView::Other(message@),
        }
    }
}


/// The start of a message that names a line.
pub open spec fn on_line(line: usize) -> Seq<char> {
    "on line "@ + integer_text(line as int) + ": "@
}

impl ErrorView {
    /// The text that tells a reader what went wrong, and on which line.
    pub open spec fn message(self) -> Seq<char> {
        match self {
            ErrorView::UnexpectedToken { expected, found, line } => on_line(line)
                + "Expected token: "@ + token_debug(expected) + ", but found token: "@
                + token_debug(found),
            ErrorView::UnknownUnexpectedToken { found, line } => on_line(line) + "found token: "@
                + token_debug(found) + ", but it's not expected"@,
            ErrorView::UnknownFunction { name, line } => on_line(line) + "unknown function: "@
                + name,
            ErrorView::UnknownVariable { name, line } => on_line(line) + "unknown variable: "@
                + name,
            ErrorView::DivisionByZero { line } => on_line(line) + "division by zero"@,
            ErrorView::GeneralError { line, message } => on_line(line) + message,
            ErrorView::LexerUnexpectedChar { found, line } => on_line(line) + "found token "@
                + string_debug(found) + ", but it's not expected"@,
            ErrorView::ArgumentMismatch { expected, found, line } => on_line(line) + "expected "@
                + integer_text(expected as int) + " arguments, but found "@ + integer_text(
                found as int,
            ),
            ErrorView::TypeError { expected, found, line } => on_line(line) + "expected type "@
                + expr_debug(expected) + ", but found type "@ + expr_debug(found),
            ErrorView::Other(message) => "Parse error: "@ + message,
        }
    }
}

/// The start of a message that names a line.
fn line_prefix(line: usize) -> (s: String)
    ensures
        s@ == on_line(line),
{
    let mut s = String::from_str("on line ");
    s.append(unsigned_to_string(line as u64).as_str());
    s.append(": ");
    s
}

impl ParseError {
    /// The text that tells a reader what went wrong, and on which line.
    pub fn message(&self) -> (s: String)
        ensures
            s@ == self@.message(),
    {
        match self {
            ParseError::UnexpectedToken { expected, found, line } => {
                let mut s = line_prefix(*line);
                s.append("Expected token: ");
                s.append(expected.debug().as_str());
                s.append(", but found token: ");
                s.append(found.debug().as_str());
                s
            },
            ParseError::UnknownUnexpectedToken { found, line } => {
                let mut s = line_prefix(*line);
                s.append("found token: ");
                s.append(found.debug().as_str());
                s.append(", but it's not expected");
                s
            },
            ParseError::UnknownFunction { name, line } => {
                let mut s = line_prefix(*line);
                s.append("unknown function: ");
                s.append(name.as_str());
                s
            },
            ParseError::UnknownVariable { name, line } => {
                let mut s = line_prefix(*line);
                s.append("unknown variable: ");
                s.append(name.as_str());
                s
            },
            ParseError::DivisionByZero { line } => {
                let mut s = line_prefix(*line);
                s.append("division by zero");
                s
            },
            ParseError::GeneralError { line, message } => {
                let mut s = line_prefix(*line);
                s.append(message.as_str());
                s
            },
            ParseError::LexerUnexpectedChar { found, line } => {
                let mut s = line_prefix(*line);
                s.append("found token ");
                s.append(debug_string(found).as_str());
                s.append(", but it's not expected");
                s
            },
            ParseError::ArgumentMismatch { expected, found, line } => {
                let mut s = line_prefix(*line);
                s.append("expected ");
                s.append(unsigned_to_string(*expected as u64).as_str());
                s.append(" arguments, but found ");
                s.append(unsigned_to_string(*found as u64).as_str());
                s
            },
            ParseError::TypeError { expected, found, line } => {
                let mut s = line_prefix(*line);
                s.append("expected type ");
                s.append(expected.debug().as_str());
                s.append(", but found type ");
                s.append(found.debug().as_str());
                s
            },
            ParseError::Other(message) => {
                let mut s = String::from_str("Parse error: ");
                s.append(message.as_str());
                s
            },
        }
    }
}

} // verus!
