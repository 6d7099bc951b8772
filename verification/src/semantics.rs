use vstd::prelude::*;
use crate::ast::{expr_debug, ExprView, StmtView};
use crate::error::ErrorView;
use crate::libs::{library_named, LibState, LibraryView, NativeFunction, ParamKind};
use crate::libs::skui::clock::{
    frame_millis, frame_nanos, millis_of, millis_value, sleep_nanos, Clock,
};
use crate::libs::skui::utils::colour_of;
use crate::libs::skui::SkuiApp;
use crate::machine::{Callee, ControlFlowView, FocusView, FrameView, RequestView};
use crate::text::{integer_of, integer_text, trimmed};
use crate::token::{token_debug, TokenView};

verus! {

/// An instance of a class as plain values.
pub struct InstanceView {
    pub variables: Map<Seq<char>, ExprView>,
    pub class_name: Seq<char>,
}

/// The evaluator's whole state as plain values.
pub struct InterpreterView {
    /// The global variables.
    pub variables: Map<Seq<char>, ExprView>,
    /// The bodies of the functions declared so far.
    pub functions: Map<Seq<char>, Seq<StmtView>>,
    /// The methods of the classes declared so far.
    pub classes: Map<Seq<char>, Map<Seq<char>, Seq<StmtView>>>,
    /// The instances made so far; an instance's id is its position.
    pub instances: Seq<InstanceView>,
    /// The libraries imported so far.
    pub libs: Map<Seq<char>, LibraryView>,
    /// The instance whose method runs, if one does.
    pub current_instance: Option<usize>,
    /// The line of the statement that runs.
    pub line: usize,
    /// The work that waits, innermost last.
    pub frames: Seq<FrameView>,
    /// What is done next.
    pub focus: FocusView,
}

/// Whether a value counts as true in a condition: every value does but the
/// boolean `false`.
pub open spec fn truthy(v: ExprView) -> bool {
    v != ExprView::Boolean(false)
}

/// The quotient of two integers, rounded towards zero; `d` is not zero.
pub open spec fn quotient(x: int, d: int) -> int {
    if x == 0 {
        0
    } else if x > 0 && d > 0 {
        x / d
    } else if x < 0 && d < 0 {
        (x * -1) / (d * -1)
    } else if x < 0 {
        ((x * -1) / d) * -1
    } else {
        (x / (d * -1)) * -1
    }
}

/// Whether an integer fits in 64 signed bits.
pub open spec fn fits(n: int) -> bool {
    i64::MIN <= n <= i64::MAX
}

/// The error for operands that an operator does not take.
pub open spec fn type_error(
    expected: ExprView,
    op: TokenView,
    left: ExprView,
    right: ExprView,
    line: usize,
) -> ErrorView {
    ErrorView::TypeError {
        expected,
        found: ExprView::BinOp { left: Box::new(left), op, right: Box::new(right) },
        line,
    }
}

/// The error for an integer result that does not fit in 64 signed bits.
pub open spec fn overflow(line: usize) -> ErrorView {
    ErrorView::GeneralError { line, message: "Integer overflow"@ }
}

/// An integer result, or the overflow error where it does not fit.
pub open spec fn number(n: int, line: usize) -> Result<ExprView, ErrorView> {
    if fits(n) {
        Ok(ExprView::Number(n as i64))
    } else {
        Err(overflow(line))
    }
}

/// What a binary operator gives on two values.
pub open spec fn binary(op: TokenView, left: ExprView, right: ExprView, line: usize) -> Result<
    ExprView,
    ErrorView,
> {
    let expects_number = type_error(ExprView::Number(-1i64), op, left, right, line);
    let expects_boolean = type_error(ExprView::Boolean(false), op, left, right, line);
    match op {
        TokenView::Plus => match (left, right) {
            (ExprView::Number(l), ExprView::Number(r)) => number(l + r, line),
            (ExprView::StringLiteral(l), ExprView::StringLiteral(r)) => Ok(
                ExprView::StringLiteral(l + r),
            ),
            _ => Err(expects_number),
        },
        TokenView::Minus => match (left, right) {
            (ExprView::Number(l), ExprView::Number(r)) => number(l - r, line),
            _ => Err(expects_number),
        },
        TokenView::Star => match (left, right) {
            (ExprView::Number(l), ExprView::Number(r)) => number(l * r, line),
            _ => Err(expects_number),
        },
        TokenView::Slash => match (left, right) {
            (ExprView::Number(l), ExprView::Number(r)) => if r == 0 {
                Err(ErrorView::DivisionByZero { line })
            } else {
                number(quotient(l as int, r as int), line)
            },
            _ => Err(expects_number),
        },
        TokenView::Rizz => match (left, right) {
            (ExprView::Number(l), ExprView::Number(r)) => Ok(ExprView::Boolean(l == r)),
            (ExprView::StringLiteral(l), ExprView::StringLiteral(r)) => Ok(
                ExprView::Boolean(l == r),
            ),
            _ => Err(expects_boolean),
        },
        TokenView::GreaterThan => match (left, right) {
            (ExprView::Number(l), ExprView::Number(r)) => Ok(ExprView::Boolean(l > r)),
            _ => Err(expects_boolean),
        },
        TokenView::LessThan => match (left, right) {
            (ExprView::Number(l), ExprView::Number(r)) => Ok(ExprView::Boolean(l < r)),
            _ => Err(expects_boolean),
        },
        _ => Err(
            ErrorView::GeneralError {
                line,
                message: "Unsupported operator: "@ + token_debug(op),
            },
        ),
    }
}

/// A value as `yap` prints it: an integer in decimal, a string as it is, a
/// boolean as its keyword, anything else as nothing.
pub open spec fn text_of(v: ExprView) -> Seq<char> {
    match v {
        ExprView::Number(n) => integer_text(n as int),
        ExprView::StringLiteral(s) => s,
        ExprView::Boolean(b) => if b {
            "sigma"@
        } else {
            "ohio"@
        },
        _ => Seq::empty(),
    }
}

/// The integer that a value holds; zero for any other value.
pub open spec fn number_of(v: ExprView) -> i64 {
    match v {
        ExprView::Number(n) => n,
        _ => 0,
    }
}

/// An argument's value as the callee takes it. `source` is the argument as
/// it was written.
pub open spec fn coerce(kind: ParamKind, v: ExprView, source: ExprView, line: usize) -> Result<
    ExprView,
    ErrorView,
> {
    match kind {
        ParamKind::Number => match v {
            ExprView::Number(_) => Ok(v),
            _ => Err(ErrorView::TypeError { expected: ExprView::Number(-1i64), found: source, line }),
        },
        ParamKind::Integer => match v {
            ExprView::Number(_) => Ok(v),
            ExprView::StringLiteral(s) => match integer_of(s) {
                Some(n) => Ok(ExprView::Number(n)),
                None => Err(
                    ErrorView::GeneralError {
                        line,
                        message: "Failed to parse "@ + s + " as number"@,
                    },
                ),
            },
            _ => Err(ErrorView::TypeError { expected: ExprView::Number(-1i64), found: source, line }),
        },
        ParamKind::Text => match v {
            ExprView::StringLiteral(_) => Ok(v),
            _ => Err(
                ErrorView::TypeError {
                    expected: ExprView::StringLiteral(Seq::empty()),
                    found: source,
                    line,
                },
            ),
        },
        ParamKind::Printed => Ok(ExprView::StringLiteral(text_of(v))),
    }
}

/// What `yap` prints: each value's text, and a space after each.
pub open spec fn yap_text(values: Seq<ExprView>) -> Seq<char>
    decreases values.len(),
{
    if values.len() == 0 {
        Seq::empty()
    } else {
        yap_text(values.drop_last()) + text_of(values.last()) + " "@
    }
}

/// The methods that a class body declares, by name. Of two methods with one
/// name the later one stays.
pub open spec fn methods_of(functions: Seq<StmtView>) -> Map<Seq<char>, Seq<StmtView>>
    decreases functions.len(),
{
    if functions.len() == 0 {
        Map::empty()
    } else {
        let before = methods_of(functions.drop_last());
        match functions.last() {
            StmtView::Function { name, body, .. } => before.insert(name, body),
            _ => before,
        }
    }
}

/// What a call gives when its body ends with the signal `c`: the returned
/// value, or zero.
pub open spec fn call_value(c: ControlFlowView) -> ExprView {
    match c {
        ControlFlowView::Return(v) => v,
        _ => ExprView::Number(0),
    }
}

impl InterpreterView {
    /// The state with another focus.
    pub open spec fn look(self, focus: FocusView) -> InterpreterView {
        InterpreterView { focus, ..self }
    }

    /// The state that hands `v` to the frame on top.
    pub open spec fn give(self, v: ExprView) -> InterpreterView {
        self.look(FocusView::Value(v))
    }

    /// The state that hands `c` to the frame on top.
    pub open spec fn signal(self, c: ControlFlowView) -> InterpreterView {
        self.look(FocusView::Signal(c))
    }

    /// The state that waits for the host's reply to `request`.
    pub open spec fn ask(self, request: RequestView) -> InterpreterView {
        self.look(FocusView::Waiting(request))
    }

    /// The state in which all work has ended with the error `e`.
    pub open spec fn fail(self, e: ErrorView) -> InterpreterView {
        InterpreterView { frames: Seq::empty(), focus: FocusView::Finished(Err(e)), ..self }
    }

    /// The state in which all work has ended with a general error on the
    /// current line.
    pub open spec fn general(self, message: Seq<char>) -> InterpreterView {
        self.fail(ErrorView::GeneralError { line: self.line, message })
    }

    /// The state with one more frame on top.
    pub open spec fn push(self, frame: FrameView) -> InterpreterView {
        InterpreterView { frames: self.frames.push(frame), ..self }
    }

    /// The state without the frame on top.
    pub open spec fn pop(self) -> InterpreterView {
        InterpreterView { frames: self.frames.drop_last(), ..self }
    }

    /// The state on another line.
    pub open spec fn at_line(self, line: usize) -> InterpreterView {
        InterpreterView { line, ..self }
    }

    /// The state with the variable `name` bound to `v`.
    pub open spec fn bind(self, name: Seq<char>, v: ExprView) -> InterpreterView {
        InterpreterView { variables: self.variables.insert(name, v), ..self }
    }

    /// The state that starts to run `statements`.
    pub open spec fn start_block(self, statements: Seq<StmtView>) -> InterpreterView {
        self.push(FrameView::Block { statements, next: 0 }).signal(ControlFlowView::Proceed)
    }

    /// The state that enters a call: a boundary that remembers the current
    /// instance and line, and `instance` as the current instance.
    pub open spec fn enter(self, instance: Option<usize>) -> InterpreterView {
        InterpreterView {
            current_instance: instance,
            ..self.push(
                FrameView::CallBoundary { instance: self.current_instance, line: self.line },
            )
        }
    }

    /// The state of the library `skui`, if the library is imported.
    pub open spec fn skui(self) -> Option<crate::libs::skui::SkuiState> {
        if self.libs.contains_key("skui"@) {
            match self.libs["skui"@].state {
                LibState::SkuiState(state) => Some(state),
                _ => None,
            }
        } else {
            None
        }
    }

    /// The state with another state of the library `skui`.
    pub open spec fn with_skui(self, state: crate::libs::skui::SkuiState) -> InterpreterView {
        InterpreterView {
            libs: self.libs.insert(
                "skui"@,
                LibraryView {
                    functions: crate::libs::skui::skui_library().functions,
                    state: LibState::SkuiState(state),
                },
            ),
            ..self
        }
    }

    /// Starts the evaluation of an expression.
    #[verifier::opaque]
    pub open spec fn evaluate(self, e: ExprView) -> InterpreterView {
        match e {
            ExprView::Ident(name) => if self.variables.contains_key(name) {
                self.give(self.variables[name])
            } else {
                self.fail(ErrorView::UnknownVariable { name, line: self.line })
            },
            ExprView::Number(_) => self.give(e),
            ExprView::StringLiteral(_) => self.give(e),
            ExprView::Boolean(_) => self.give(e),
            ExprView::List(items) => if items.len() == 0 {
                self.give(ExprView::List(Seq::empty()))
            } else {
                self.push(FrameView::Elements { items, done: Seq::empty() }).look(
                    FocusView::Expression(items[0]),
                )
            },
            ExprView::BinOp { left, op, right } => self.push(
                FrameView::Right { op, right: *right },
            ).look(FocusView::Expression(*left)),
            ExprView::FunctionCall { name, object, args } => self.call(name, object, args),
            ExprView::NewInstance { class_name, args } => self.construct(class_name),
            _ => self.general("Unsupported expression "@ + expr_debug(e)),
        }
    }

    /// Starts the making of an instance: the constructor's statements run
    /// first. The arguments of the instantiation are not used: a
    /// constructor has no parameters.
    pub open spec fn construct(self, class_name: Seq<char>) -> InterpreterView {
        if !self.classes.contains_key(class_name) {
            self.general("Unknown class: "@ + class_name)
        } else if !self.classes[class_name].contains_key("__edge__"@) {
            self.fail(ErrorView::UnknownFunction { name: "__edge__"@, line: self.line })
        } else {
            self.push(FrameView::Construct { class_name }).start_block(
                self.classes[class_name]["__edge__"@],
            )
        }
    }

    /// Starts a call of the method `name` of `class_name` on the instance
    /// `instance`, which the caller wrote as `object`.
    pub open spec fn method_call(
        self,
        class_name: Seq<char>,
        instance: usize,
        name: Seq<char>,
        object: Seq<char>,
    ) -> InterpreterView {
        if !self.classes.contains_key(class_name) {
            self.general("Unknown class: "@ + class_name)
        } else if !self.classes[class_name].contains_key(name) {
            self.general("Unknown function: "@ + name + " on object "@ + object)
        } else {
            self.enter(Some(instance)).start_block(self.classes[class_name][name])
        }
    }

    /// Starts a call of the user-defined function `name`.
    pub open spec fn user_call(self, name: Seq<char>) -> InterpreterView {
        if self.functions.contains_key(name) {
            self.enter(None).start_block(self.functions[name])
        } else {
            self.fail(ErrorView::UnknownFunction { name, line: self.line })
        }
    }

    /// Starts a call. With a receiver, `self` stands for the current
    /// instance; another name is looked up among the variables, where it must
    /// hold an instance, and then among the libraries. Without a receiver
    /// the builtins come first, then the user-defined functions.
    #[verifier::opaque]
    pub open spec fn call(
        self,
        name: Seq<char>,
        object: Option<Box<ExprView>>,
        args: Seq<ExprView>,
    ) -> InterpreterView {
        match object {
            Some(receiver) => match *receiver {
                ExprView::Ident(object) => if object == "self"@ {
                    match self.current_instance {
                        None => self.general("Cannot use 'self' outside of a method context"@),
                        Some(id) => if id < self.instances.len() {
                            self.method_call(self.instances[id as int].class_name, id, name, object)
                        } else {
                            self.general("Current instance not found"@)
                        },
                    }
                } else if self.variables.contains_key(object) {
                    match self.variables[object] {
                        ExprView::Instance { class_name, instance_id } => self.method_call(
                            class_name,
                            instance_id,
                            name,
                            object,
                        ),
                        _ => self.general(
                            "Object calls of variables are only supported for instance variables."@,
                        ),
                    }
                } else if self.libs.contains_key(object) {
                    if self.libs[object].functions.contains_key(name) {
                        self.invoke(Callee::Native(self.libs[object].functions[name]), args)
                    } else {
                        self.general("Unknown function: "@ + name + " on object "@ + object)
                    }
                } else {
                    self.general("Unknown library: "@ + object)
                },
                _ => self.general("Object calls of other types than IDENT are not supported"@),
            },
            None => if name == "aura"@ {
                self.invoke(Callee::Aura, args)
            } else if name == "yap"@ {
                self.invoke(Callee::Yap, args)
            } else if name == "attemptrizz"@ {
                self.invoke(Callee::AttemptRizz, args)
            } else {
                self.user_call(name)
            },
        }
    }

    /// Starts a builtin or native call: the number of arguments is checked
    /// first, then the arguments are evaluated from left to right.
    pub open spec fn invoke(self, callee: Callee, args: Seq<ExprView>) -> InterpreterView {
        if callee.spec_ignores_arguments() {
            self.apply(callee, Seq::empty())
        } else if callee.spec_arity() is Some && args.len() != callee.spec_arity()->Some_0 {
            self.fail(
                ErrorView::ArgumentMismatch {
                    expected: callee.spec_arity()->Some_0,
                    found: args.len() as usize,
                    line: self.line,
                },
            )
        } else if args.len() == 0 {
            self.apply(callee, Seq::empty())
        } else {
            self.push(FrameView::Arguments { callee, args, done: Seq::empty() }).look(
                FocusView::Expression(args[0]),
            )
        }
    }

    /// Runs a builtin or native call on the values of its arguments.
    #[verifier::opaque]
    pub open spec fn apply(self, callee: Callee, values: Seq<ExprView>) -> InterpreterView {
        if callee.spec_arity() is Some && values.len() != callee.spec_arity()->Some_0 {
            self.fail(ErrorView::Other("a call reached its body without its arguments"@))
        } else {
            match callee {
                Callee::Aura => self.give(values[0]),
                Callee::Yap => self.ask(RequestView::Print(yap_text(values))),
                Callee::AttemptRizz => self.ask(RequestView::Prompt(text_of(values[0]))),
                Callee::Native(f) => self.native(f, values),
            }
        }
    }

    /// Runs a native function on the values of its arguments: what the
    /// library itself decides, up to the request to the host.
    pub open spec fn native(self, f: NativeFunction, values: Seq<ExprView>) -> InterpreterView {
        match f {
            NativeFunction::RandInt => if number_of(values[0]) > number_of(values[1]) {
                self.general("min cannot be greater than max"@)
            } else {
                self.ask(
                    RequestView::Random { min: number_of(values[0]), max: number_of(values[1]) },
                )
            },
            NativeFunction::SpawnTheApel => if number_of(values[0]) != 420 {
                self.general("arg must be secret number"@)
            } else {
                self.ask(RequestView::Animation)
            },
            NativeFunction::CreateWindow => {
                let width = number_of(values[0]);
                let height = number_of(values[1]);
                if width <= 0 || height <= 0 || width > u32::MAX || height > u32::MAX {
                    self.general("Window dimensions must be greater than zero."@)
                } else {
                    match self.skui() {
                        None => self.general("Invalid state"@),
                        Some(state) => self.with_skui(
                            crate::libs::skui::SkuiState {
                                app: Some(SkuiApp { width: width as u32, height: height as u32 }),
                                ..state
                            },
                        ).ask(
                            RequestView::CreateWindow {
                                width: width as u32,
                                height: height as u32,
                                title: text_of(values[2]),
                            },
                        ),
                    }
                }
            },
            NativeFunction::PumpEvents => match self.skui() {
                None => self.general("Invalid state"@),
                Some(state) => if state.app is Some {
                    self.ask(RequestView::PumpEvents)
                } else {
                    self.give(ExprView::Boolean(true))
                },
            },
            NativeFunction::SetFramesPerSkibidi => match self.skui() {
                None => self.general("Invalid state"@),
                Some(state) => match state.clock {
                    None => self.give(ExprView::Boolean(true)),
                    Some(clock) => {
                        let fps = number_of(values[0]);
                        if fps <= 0 || fps > u32::MAX {
                            self.general("Frame rate must be greater than zero."@)
                        } else {
                            self.with_skui(
                                crate::libs::skui::SkuiState {
                                    clock: Some(
                                        Clock {
                                            target_frame_nanos: frame_nanos(fps as u32)->Some_0,
                                            ..clock
                                        },
                                    ),
                                    ..state
                                },
                            ).give(ExprView::Boolean(true))
                        }
                    },
                },
            },
            NativeFunction::ClockEdge => match self.skui() {
                None => self.general("Invalid state"@),
                Some(state) => if state.clock is Some {
                    self.ask(RequestView::Now)
                } else {
                    self.give(ExprView::Boolean(true))
                },
            },
            NativeFunction::GoonScreen => match self.skui() {
                None => self.general("Invalid state"@),
                Some(state) => match colour_of(text_of(values[0])) {
                    Err(message) => self.general(message),
                    Ok(colour) => if state.app is Some {
                        self.ask(
                            RequestView::FillScreen {
                                red: colour.0,
                                green: colour.1,
                                blue: colour.2,
                                alpha: colour.3,
                            },
                        )
                    } else {
                        self.give(ExprView::Boolean(false))
                    },
                },
            },
        }
    }

    /// Goes on with a tick of the clock at the time `now`: the host is
    /// asked to sleep for what is left of the frame.
    pub open spec fn clock_wait(self, now: i64) -> InterpreterView {
        match self.skui() {
            None => self.general("Invalid state"@),
            Some(state) => match state.clock {
                None => self.give(ExprView::Boolean(true)),
                Some(clock) => self.ask(
                    RequestView::Sleep { nanos: sleep_nanos(clock, millis_of(now)) },
                ),
            },
        }
    }

    /// Ends a tick of the clock at the time `now`: the frame ends then, and
    /// the tick gives how long the frame lasted.
    pub open spec fn clock_end(self, now: i64) -> InterpreterView {
        match self.skui() {
            None => self.general("Invalid state"@),
            Some(state) => match state.clock {
                None => self.give(ExprView::Boolean(true)),
                Some(clock) => self.with_skui(
                    crate::libs::skui::SkuiState {
                        clock: Some(Clock { last_frame_millis: millis_of(now), ..clock }),
                        ..state
                    },
                ).give(ExprView::Number(millis_value(frame_millis(clock, millis_of(now))))),
            },
        }
    }

    /// Goes on after the host's reply to the request that the state waits
    /// for. A state that waits for nothing stays as it is.
    #[verifier::opaque]
    pub open spec fn resume(self, reply: Result<ExprView, ErrorView>) -> InterpreterView {
        match self.focus {
            FocusView::Waiting(request) => match reply {
                Err(e) => self.fail(e),
                Ok(v) => match request {
                    RequestView::Print(_) => self.give(ExprView::Boolean(true)),
                    RequestView::Prompt(_) => self.give(ExprView::StringLiteral(trimmed(text_of(v)))),
                    RequestView::Random { min, max } => match v {
                        ExprView::Number(n) => if min <= n <= max {
                            self.give(v)
                        } else {
                            self.fail(ErrorView::Other("the number drawn is out of range"@))
                        },
                        _ => self.fail(ErrorView::Other("the number drawn is out of range"@)),
                    },
                    RequestView::Animation => self.give(ExprView::Number(0)),
                    RequestView::CreateWindow { .. } => self.give(ExprView::Boolean(true)),
                    RequestView::PumpEvents => self.give(v),
                    RequestView::FillScreen { .. } => self.give(ExprView::StringLiteral("ok"@)),
                    RequestView::Now => self.clock_wait(number_of(v)),
                    RequestView::Sleep { .. } => self.clock_end(number_of(v)),
                },
            },
            _ => self,
        }
    }

    /// Hands a value to the frame on top. With no frame left the work ends
    /// with that value.
    #[verifier::opaque]
    pub open spec fn deliver_value(self, v: ExprView) -> InterpreterView {
        if self.frames.len() == 0 {
            self.look(FocusView::Finished(Ok(v)))
        } else {
            let top = self.frames.last();
            let rest = self.pop();
            match top {
                FrameView::Right { op, right } => rest.push(FrameView::Apply { op, left: v }).look(
                    FocusView::Expression(right),
                ),
                FrameView::Apply { op, left } => match binary(op, left, v, self.line) {
                    Ok(r) => rest.give(r),
                    Err(e) => rest.fail(e),
                },
                FrameView::Elements { items, done } => if done.len() + 1 < items.len() {
                    rest.push(FrameView::Elements { items, done: done.push(v) }).look(
                        FocusView::Expression(items[done.len() as int + 1]),
                    )
                } else {
                    rest.give(ExprView::List(done.push(v)))
                },
                FrameView::Bind { name } => rest.bind(name, v).signal(ControlFlowView::Proceed),
                FrameView::Discard => rest.signal(ControlFlowView::Proceed),
                FrameView::ReturnValue => rest.signal(ControlFlowView::Return(v)),
                FrameView::Loop { condition, body, line } => if truthy(v) {
                    self.start_block(body)
                } else {
                    rest.signal(ControlFlowView::Proceed)
                },
                FrameView::Branch { then_branch, else_branch } => if truthy(v) {
                    rest.start_block(then_branch)
                } else {
                    match else_branch {
                        Some(statements) => rest.start_block(statements),
                        None => rest.signal(ControlFlowView::Proceed),
                    }
                },
                FrameView::Items { iterator, body } => match v {
                    ExprView::List(items) => rest.push(
                        FrameView::Each { iterator, items, next: 0, body },
                    ).signal(ControlFlowView::Proceed),
                    _ => rest.general("Expected list after 'in'"@),
                },
                FrameView::Arguments { callee, args, done } => if done.len() < args.len() {
                    match coerce(
                        callee.spec_kind(done.len() as usize),
                        v,
                        args[done.len() as int],
                        self.line,
                    ) {
                        Err(e) => rest.fail(e),
                        Ok(c) => if done.len() + 1 < args.len() {
                            rest.push(
                                FrameView::Arguments { callee, args, done: done.push(c) },
                            ).look(FocusView::Expression(args[done.len() as int + 1]))
                        } else {
                            rest.apply(callee, done.push(c))
                        },
                    }
                } else {
                    rest.fail(ErrorView::Other("a value reached a frame that takes none"@))
                },
                _ => rest.fail(ErrorView::Other("a value reached a frame that takes none"@)),
            }
        }
    }

    /// Hands a signal to the frame on top. With no frame left the work ends
    /// with the value that the signal returns, or with zero.
    #[verifier::opaque]
    pub open spec fn deliver_signal(self, c: ControlFlowView) -> InterpreterView {
        if self.frames.len() == 0 {
            self.look(FocusView::Finished(Ok(call_value(c))))
        } else {
            let top = self.frames.last();
            let rest = self.pop();
            match top {
                FrameView::Block { statements, next } => if c is Proceed {
                    if next < statements.len() {
                        rest.push(
                            FrameView::Block { statements, next: (next + 1) as usize },
                        ).look(FocusView::Statement(statements[next as int]))
                    } else {
                        rest.signal(ControlFlowView::Proceed)
                    }
                } else {
                    rest.signal(c)
                },
                FrameView::Program { statements, next } => if next < statements.len() {
                    rest.push(FrameView::Program { statements, next: (next + 1) as usize }).look(
                        FocusView::Statement(statements[next as int]),
                    )
                } else {
                    rest.signal(ControlFlowView::Proceed)
                },
                FrameView::Loop { condition, body, line } => if c is Return {
                    rest.signal(c)
                } else {
                    self.at_line(line).look(FocusView::Expression(condition))
                },
                FrameView::Each { iterator, items, next, body } => if c is Return {
                    rest.signal(c)
                } else if next < items.len() {
                    rest.bind(iterator, items[next as int]).push(
                        FrameView::Each { iterator, items, next: (next + 1) as usize, body },
                    ).start_block(body)
                } else {
                    rest.signal(ControlFlowView::Proceed)
                },
                FrameView::CallBoundary { instance, line } => InterpreterView {
                    current_instance: instance,
                    line,
                    ..rest
                }.give(call_value(c)),
                FrameView::Construct { class_name } => InterpreterView {
                    instances: rest.instances.push(
                        InstanceView { variables: Map::empty(), class_name },
                    ),
                    ..rest
                }.give(
                    ExprView::Instance { class_name, instance_id: rest.instances.len() as usize },
                ),
                _ => rest.fail(ErrorView::Other("a signal reached a frame that takes none"@)),
            }
        }
    }

    /// Starts the execution of a statement. A declaration is recorded under
    /// its name, where it replaces an earlier one of that name. An
    /// assignment binds a global variable, whether or not a receiver stands
    /// before the name.
    #[verifier::opaque]
    pub open spec fn execute(self, s: StmtView) -> InterpreterView {
        match s {
            StmtView::Class { name, functions, line } => InterpreterView {
                classes: self.classes.insert(name, methods_of(functions)),
                ..self.at_line(line)
            }.signal(ControlFlowView::Proceed),
            StmtView::Function { name, body, line } => InterpreterView {
                functions: self.functions.insert(name, body),
                ..self.at_line(line)
            }.signal(ControlFlowView::Proceed),
            StmtView::VariableAssign { name, object, value, line } => self.at_line(line).push(
                FrameView::Bind { name },
            ).look(FocusView::Expression(value)),
            StmtView::While { condition, body, line } => self.at_line(line).push(
                FrameView::Loop { condition, body, line },
            ).look(FocusView::Expression(condition)),
            StmtView::If { condition, then_branch, else_branch, line } => self.at_line(line).push(
                FrameView::Branch { then_branch, else_branch },
            ).look(FocusView::Expression(condition)),
            StmtView::Expression { value, line } => self.at_line(line).push(
                FrameView::Discard,
            ).look(FocusView::Expression(value)),
            StmtView::Return { value, line } => self.at_line(line).push(
                FrameView::ReturnValue,
            ).look(FocusView::Expression(value)),
            StmtView::Import { library, line } => match library_named(library) {
                Some(loaded) => InterpreterView {
                    libs: self.libs.insert(library, loaded),
                    ..self.at_line(line)
                }.signal(ControlFlowView::Proceed),
                None => self.at_line(line).general("Unknown library gyatt import: "@ + library),
            },
            StmtView::Continue { line } => self.at_line(line).signal(ControlFlowView::Continue),
            StmtView::ForLoop { iterator, collection, body, line } => self.at_line(line).push(
                FrameView::Items { iterator, body },
            ).look(FocusView::Expression(collection)),
        }
    }

    /// Whether the state needs no step: it waits for the host, or its work
    /// has ended.
    pub open spec fn rests(self) -> bool {
        self.focus is Waiting || self.focus is Finished
    }

    /// The state with nothing in focus.
    pub open spec fn idle(self) -> InterpreterView {
        self.look(FocusView::Finished(Ok(ExprView::Number(0))))
    }

    /// One step. A state that rests stays as it is.
    pub open spec fn step(self) -> InterpreterView {
        match self.focus {
            FocusView::Expression(e) => self.idle().evaluate(e),
            FocusView::Statement(s) => self.idle().execute(s),
            FocusView::Value(v) => self.idle().deliver_value(v),
            FocusView::Signal(c) => self.idle().deliver_signal(c),
            FocusView::Waiting(_) => self,
            FocusView::Finished(_) => self,
        }
    }

    /// Steps until the state rests, but `budget` steps at most.
    pub open spec fn run(self, budget: nat) -> InterpreterView
        decreases budget,
    {
        if budget == 0 || self.rests() {
            self
        } else {
            self.step().run((budget - 1) as nat)
        }
    }

    /// The state that is about to run `statements` as a whole program, with
    /// nothing else left to do. Every statement of a program runs: a
    /// signal to return or to continue that reaches the program ends
    /// nothing, and the program ends with zero.
    pub open spec fn load(self, statements: Seq<StmtView>) -> InterpreterView {
        InterpreterView { frames: Seq::empty(), ..self }.push(
            FrameView::Program { statements, next: 0 },
        ).signal(ControlFlowView::Proceed)
    }
}

} // verus!
