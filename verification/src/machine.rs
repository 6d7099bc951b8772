use vstd::prelude::*;
use crate::ast::{exprs_view, stmts_view, Expr, ExprView, Stmt, StmtView};
use crate::error::{ErrorView, ParseError};
use crate::libs::{NativeFunction, ParamKind};
use crate::token::{Token, TokenView};

verus! {

/// What a statement tells the statements around it when it ends.
#[derive(Debug)]
pub enum ControlFlow {
    /// Stop this pass of the enclosing loop.
    Continue,
    /// Leave the enclosing function with this value.
    Return(Expr),
    /// Go on with the next statement.
    Proceed,
}

/// A control-flow signal as plain values.
pub enum ControlFlowView {
    Continue,
    Return(ExprView),
    Proceed,
}

impl View for ControlFlow {
    type V = ControlFlowView;

    open spec fn view(&self) -> ControlFlowView {
        match self {
            ControlFlow::Continue => ControlFlowView::Continue,
            ControlFlow::Return(v) => ControlFlowView::Return(v@),
            ControlFlow::Proceed => ControlFlowView::Proceed,
        }
    }
}

/// What a call without a user-defined body calls.
#[derive(Clone, Copy, Debug, PartialEq, Eq, Structural)]
pub enum Callee {
    /// `aura(value)`: the value as an integer.
    Aura,
    /// `yap(values...)`: prints the values.
    Yap,
    /// `attemptrizz(question)`: prints the question and reads a line.
    AttemptRizz,
    /// A function of a native library.
    Native(NativeFunction),
}

impl Callee {
    /// Whether the call leaves its arguments unevaluated.
    pub open spec fn spec_ignores_arguments(self) -> bool {
        match self {
            Callee::Native(f) => f.spec_ignores_arguments(),
            _ => false,
        }
    }

    /// Whether the call leaves its arguments unevaluated.
    #[verifier::when_used_as_spec(spec_ignores_arguments)]
    pub fn ignores_arguments(self) -> (b: bool)
        ensures
            b == self.spec_ignores_arguments(),
    {
        match self {
            Callee::Native(f) => f.ignores_arguments(),
            _ => false,
        }
    }

    /// The number of arguments that the call demands, if it demands one.
    pub open spec fn spec_arity(self) -> Option<usize> {
        match self {
            Callee::Aura => Some(1usize),
            Callee::Yap => None,
            Callee::AttemptRizz => Some(1usize),
            Callee::Native(f) => Some(f.spec_arity()),
        }
    }

    /// The number of arguments that the call demands, if it demands one.
    #[verifier::when_used_as_spec(spec_arity)]
    pub fn arity(self) -> (n: Option<usize>)
        ensures
            n == self.spec_arity(),
    {
        match self {
            Callee::Aura => Some(1),
            Callee::Yap => None,
            Callee::AttemptRizz => Some(1),
            Callee::Native(f) => Some(f.arity()),
        }
    }

    /// How the call takes its argument at `index`.
    pub open spec fn spec_kind(self, index: usize) -> ParamKind {
        match self {
            Callee::Aura => ParamKind::Integer,
            Callee::Yap => ParamKind::Printed,
            Callee::AttemptRizz => ParamKind::Text,
            Callee::Native(f) => f.spec_kind(index),
        }
    }

    /// How the call takes its argument at `index`.
    #[verifier::when_used_as_spec(spec_kind)]
    pub fn kind(self, index: usize) -> (k: ParamKind)
        ensures
            k == self.spec_kind(index),
    {
        match self {
            Callee::Aura => ParamKind::Integer,
            Callee::Yap => ParamKind::Printed,
            Callee::AttemptRizz => ParamKind::Text,
            Callee::Native(f) => f.kind(index),
        }
    }
}

/// Work that only the host can do. The evaluator stops on a request and
/// goes on when the host hands in the reply.
#[derive(Debug)]
pub enum Request {
    /// Print the text and a line end.
    Print(String),
    /// Print the text without a line end, and read one line.
    Prompt(String),
    /// Draw an integer from `min` to `max`.
    Random { min: i64, max: i64 },
    /// Show the animation of the library `apel`.
    Animation,
    /// Open a window.
    CreateWindow { width: u32, height: u32, title: String },
    /// Handle the window's pending events.
    PumpEvents,
    /// Fill the window with one colour.
    FillScreen { red: u8, green: u8, blue: u8, alpha: u8 },
    /// Tell the time, in milliseconds.
    Now,
    /// Sleep for so many nanoseconds, and tell the time after it, in
    /// milliseconds.
    Sleep { nanos: u64 },
}

/// A request as plain values.
pub enum RequestView {
    Print(Seq<char>),
    Prompt(Seq<char>),
    Random { min: i64, max: i64 },
    Animation,
    CreateWindow { width: u32, height: u32, title: Seq<char> },
    PumpEvents,
    FillScreen { red: u8, green: u8, blue: u8, alpha: u8 },
    Now,
    Sleep { nanos: u64 },
}

impl View for Request {
    type V = RequestView;

    open spec fn view(&self) -> RequestView {
        match self {
            Request::Print(text) => RequestView::Print(text@),
            Request::Prompt(text) => RequestView::Prompt(text@),
            Request::Random { min, max } => RequestView::Random { min: *min, max: *max },
            Request::Animation => RequestView::Animation,
            Request::CreateWindow { width, height, title } => RequestView::CreateWindow {
                width: *width,
                height: *height,
                title: title@,
            },
            Request::PumpEvents => RequestView::PumpEvents,
            Request::FillScreen { red, green, blue, alpha } => RequestView::FillScreen {
                red: *red,
                green: *green,
                blue: *blue,
                alpha: *alpha,
            },
            Request::Now => RequestView::Now,
            Request::Sleep { nanos } => RequestView::Sleep { nanos: *nanos },
        }
    }
}

/// Work that waits for the value of an expression or for the signal of a
/// statement.
#[derive(Debug)]
pub enum Frame {
    /// The left operand is being evaluated; the right one comes next.
    Right { op: Token, right: Expr },
    /// The right operand is being evaluated; then the operator is applied.
    Apply { op: Token, left: Expr },
    /// An element of a list literal is being evaluated.
    Elements { items: Vec<Expr>, done: Vec<Expr> },
    /// The value will be bound to a variable.
    Bind { name: String },
    /// The value will be dropped.
    Discard,
    /// The value will be returned.
    ReturnValue,
    /// A loop: it takes the value of its condition, or the signal of its
    /// body.
    Loop { condition: Expr, body: Vec<Stmt>, line: usize },
    /// A conditional that waits for the value of its condition.
    Branch { then_branch: Vec<Stmt>, else_branch: Option<Vec<Stmt>> },
    /// An iteration that waits for the value of its collection.
    Items { iterator: String, body: Vec<Stmt> },
    /// An iteration over `items`: the element at `next` comes next.
    Each { iterator: String, items: Vec<Expr>, next: usize, body: Vec<Stmt> },
    /// A sequence of statements: the one at `next` comes next.
    Block { statements: Vec<Stmt>, next: usize },
    /// The statements of a whole program: the one at `next` comes next,
    /// whatever signal the one before it gave.
    Program { statements: Vec<Stmt>, next: usize },
    /// The body of a function runs; the call ends here.
    CallBoundary { instance: Option<usize>, line: usize },
    /// The constructor of a class runs; then the instance is made.
    Construct { class_name: String },
    /// An argument of a builtin or native call is being evaluated.
    Arguments { callee: Callee, args: Vec<Expr>, done: Vec<Expr> },
}

/// A frame as plain values.
#[allow(inconsistent_fields)]
pub enum FrameView {
    Right { op: TokenView, right: ExprView },
    Apply { op: TokenView, left: ExprView },
    Elements { items: Seq<ExprView>, done: Seq<ExprView> },
    Bind { name: Seq<char> },
    Discard,
    ReturnValue,
    Loop { condition: ExprView, body: Seq<StmtView>, line: usize },
    Branch { then_branch: Seq<StmtView>, else_branch: Option<Seq<StmtView>> },
    Items { iterator: Seq<char>, body: Seq<StmtView> },
    Each { iterator: Seq<char>, items: Seq<ExprView>, next: usize, body: Seq<StmtView> },
    Block { statements: Seq<StmtView>, next: usize },
    Program { statements: Seq<StmtView>, next: usize },
    CallBoundary { instance: Option<usize>, line: usize },
    Construct { class_name: Seq<char> },
    Arguments { callee: Callee, args: Seq<ExprView>, done: Seq<ExprView> },
}

impl View for Frame {
    type V = FrameView;

    open spec fn view(&self) -> FrameView {
        match self {
            Frame::Right { op, right } => FrameView::Right { op: op@, right: right@ },
            Frame::Apply { op, left } => FrameView::Apply { op: op@, left: left@ },
            Frame::Elements { items, done } => FrameView::Elements {
                items: exprs_view(items@),
                done: exprs_view(done@),
            },
            Frame::Bind { name } => FrameView::Bind { name: name@ },
            Frame::Discard => FrameView::Discard,
            Frame::ReturnValue => FrameView::ReturnValue,
            Frame::Loop { condition, body, line } => FrameView::Loop {
                condition: condition@,
                body: stmts_view(body@),
                line: *line,
            },
            Frame::Branch { then_branch, else_branch } => FrameView::Branch {
                then_branch: stmts_view(then_branch@),
                else_branch: match else_branch {
                    Some(b) => Some(stmts_view(b@)),
                    None => None,
                },
            },
            Frame::Items { iterator, body } => FrameView::Items {
                iterator: iterator@,
                body: stmts_view(body@),
            },
            Frame::Each { iterator, items, next, body } => FrameView::Each {
                iterator: iterator@,
                items: exprs_view(items@),
                next: *next,
                body: stmts_view(body@),
            },
            Frame::Block { statements, next } => FrameView::Block {
                statements: stmts_view(statements@),
                next: *next,
            },
            Frame::Program { statements, next } => FrameView::Program {
                statements: stmts_view(statements@),
                next: *next,
            },
            Frame::CallBoundary { instance, line } => FrameView::CallBoundary {
                instance: *instance,
                line: *line,
            },
            Frame::Construct { class_name } => FrameView::Construct { class_name: class_name@ },
            Frame::Arguments { callee, args, done } => FrameView::Arguments {
                callee: *callee,
                args: exprs_view(args@),
                done: exprs_view(done@),
            },
        }
    }
}

/// The values of a stack of frames, element by element.
pub open spec fn frames_view(frames: Seq<Frame>) -> Seq<FrameView> {
    Seq::new(frames.len(), |i: int| frames[i]@)
}

/// What the evaluator does next.
#[derive(Debug)]
pub enum Focus {
    /// Evaluate this expression.
    Expression(Expr),
    /// Execute this statement.
    Statement(Stmt),
    /// Hand this value to the frame on top.
    Value(Expr),
    /// Hand this signal to the frame on top.
    Signal(ControlFlow),
    /// Wait for the host's reply to this request.
    Waiting(Request),
    /// Nothing: the work has ended with this value or this error.
    Finished(Result<Expr, ParseError>),
}

/// A focus as plain values.
pub enum FocusView {
    Expression(ExprView),
    Statement(StmtView),
    Value(ExprView),
    Signal(ControlFlowView),
    Waiting(RequestView),
    Finished(Result<ExprView, ErrorView>),
}

impl View for Focus {
    type V = FocusView;

    open spec fn view(&self) -> FocusView {
        match self {
            Focus::Expression(e) => FocusView::Expression(e@),
            Focus::Statement(s) => FocusView::Statement(s@),
            Focus::Value(v) => FocusView::Value(v@),
            Focus::Signal(c) => FocusView::Signal(c@),
            Focus::Waiting(r) => FocusView::Waiting(r@),
            Focus::Finished(r) => FocusView::Finished(
                match r {
                    Ok(v) => Ok(v@),
                    Err(e) => Err(e@),
                },
            ),
        }
    }
}

} // verus!
