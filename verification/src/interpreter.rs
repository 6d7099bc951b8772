use vstd::prelude::*;
use vstd::hash_map::StringHashMap;
use vstd::string::*;
use crate::ast::{
    clone_stmts, exprs_view, lemma_exprs_view_push, stmts_view, Expr, ExprView, Stmt, StmtView,
};
use crate::error::{ErrorView, ParseError};
use crate::libs::nerd::number_value;
use crate::libs::{load_library, Library, NativeFunction, ParamKind};
use crate::machine::{frames_view, Callee, ControlFlow, Focus, FocusView, Frame, Request};
use crate::semantics::{
    binary, call_value, coerce, methods_of, overflow, text_of, truthy, type_error, yap_text,
    InstanceView, InterpreterView,
};
use crate::text::{integer_to_string, parse_integer, trim};
use crate::token::Token;

verus! {

/// The methods of a class, by name.
pub struct ClassDefinition {
    pub functions: StringHashMap<Vec<Stmt>>,
}

impl View for ClassDefinition {
    type V = Map<Seq<char>, Seq<StmtView>>;

    open spec fn view(&self) -> Map<Seq<char>, Seq<StmtView>> {
        self.functions@.map_values(|body: Vec<Stmt>| stmts_view(body@))
    }
}

/// An instance of a class: its fields, and the name of its class.
pub struct Instance {
    pub variables: StringHashMap<Expr>,
    pub class_name: String,
}

impl View for Instance {
    type V = InstanceView;

    open spec fn view(&self) -> InstanceView {
        InstanceView {
            variables: self.variables@.map_values(|v: Expr| v@),
            class_name: self.class_name@,
        }
    }
}

/// The evaluator: the tables of the program, and the work that is under
/// way. It works in steps, and rests where only the host can go on.
pub struct Interpreter {
    pub variables: StringHashMap<Expr>,
    pub functions: StringHashMap<Vec<Stmt>>,
    pub classes: StringHashMap<ClassDefinition>,
    pub instances: Vec<Instance>,
    pub libs: StringHashMap<Library>,
    pub current_instance: Option<usize>,
    pub line: usize,
    pub frames: Vec<Frame>,
    pub focus: Focus,
}

impl View for Interpreter {
    type V = InterpreterView;

    open spec fn view(&self) -> InterpreterView {
        InterpreterView {
            variables: self.variables@.map_values(|v: Expr| v@),
            functions: self.functions@.map_values(|body: Vec<Stmt>| stmts_view(body@)),
            classes: self.classes@.map_values(|c: ClassDefinition| c@),
            instances: Seq::new(self.instances@.len(), |i: int| self.instances@[i]@),
            libs: self.libs@.map_values(|l: Library| l@),
            current_instance: self.current_instance,
            line: self.line,
            frames: frames_view(self.frames@),
            focus: self.focus@,
        }
    }
}

/// Decides whether `s` is the text `word`.
pub fn is_text(s: &String, word: &str) -> (b: bool)
    ensures
        b == (s@ == word@),
{
    *s == String::from_str(word)
}

/// `prefix` followed by `text`.
pub fn join2(prefix: &str, text: &str) -> (s: String)
    ensures
        s@ == prefix@ + text@,
{
    let mut s = String::from_str(prefix);
    s.append(text);
    s
}

/// `a`, `b` and `c`, one after another.
pub fn join3(a: &str, b: &str, c: &str) -> (s: String)
    ensures
        s@ == a@ + b@ + c@,
{
    let mut s = String::from_str(a);
    s.append(b);
    s.append(c);
    s
}

/// `a`, `b`, `c` and `d`, one after another.
pub fn join4(a: &str, b: &str, c: &str, d: &str) -> (s: String)
    ensures
        s@ == a@ + b@ + c@ + d@,
{
    let mut s = String::from_str(a);
    s.append(b);
    s.append(c);
    s.append(d);
    s
}

/// A value as `yap` prints it.
pub fn value_text(value: &Expr) -> (s: String)
    ensures
        s@ == text_of(value@),
{
    match value {
        Expr::Number(n) => integer_to_string(*n),
        Expr::StringLiteral(text) => text.clone(),
        Expr::Boolean(b) => {
            if *b {
                String::from_str("sigma")
            } else {
                String::from_str("ohio")
            }
        },
        _ => String::new(),
    }
}

/// Applies a binary operator to two values.
pub fn apply_operator(op: Token, left: Expr, right: Expr, line: usize) -> (r: Result<
    Expr,
    ParseError,
>)
    ensures
        match r {
            Ok(v) => binary(op@, left@, right@, line) == Ok::<ExprView, ErrorView>(v@),
            Err(e) => binary(op@, left@, right@, line) == Err::<ExprView, ErrorView>(e@),
        },
{
    let numbers = match (&left, &right) {
        (Expr::Number(l), Expr::Number(r)) => Some((*l, *r)),
        _ => None,
    };
    let texts = match (&left, &right) {
        (Expr::StringLiteral(_), Expr::StringLiteral(_)) => true,
        _ => false,
    };
    match op {
        Token::Plus => match numbers {
            Some((l, r)) => match l.checked_add(r) {
                Some(n) => Ok(Expr::Number(n)),
                None => Err(overflow_error(line)),
            },
            None => match (left, right) {
                (Expr::StringLiteral(l), Expr::StringLiteral(r)) => Ok(
                    Expr::StringLiteral(l.concat(r.as_str())),
                ),
                (left, right) => Err(operand_error(Expr::Number(-1), Token::Plus, left, right, line)),
            },
        },
        Token::Minus => match numbers {
            Some((l, r)) => match l.checked_sub(r) {
                Some(n) => Ok(Expr::Number(n)),
                None => Err(overflow_error(line)),
            },
            None => Err(operand_error(Expr::Number(-1), Token::Minus, left, right, line)),
        },
        Token::Star => match numbers {
            Some((l, r)) => match l.checked_mul(r) {
                Some(n) => Ok(Expr::Number(n)),
                None => Err(overflow_error(line)),
            },
            None => Err(operand_error(Expr::Number(-1), Token::Star, left, right, line)),
        },
        Token::Slash => match numbers {
            Some((l, r)) => {
                if r == 0 {
                    Err(ParseError::DivisionByZero { line })
                } else {
                    match l.checked_div(r) {
                        Some(n) => Ok(Expr::Number(n)),
                        None => Err(overflow_error(line)),
                    }
                }
            },
            None => Err(operand_error(Expr::Number(-1), Token::Slash, left, right, line)),
        },
        Token::Rizz => match numbers {
            Some((l, r)) => Ok(Expr::Boolean(l == r)),
            None => match (left, right) {
                (Expr::StringLiteral(l), Expr::StringLiteral(r)) => Ok(Expr::Boolean(l == r)),
                (left, right) => Err(
                    operand_error(Expr::Boolean(false), Token::Rizz, left, right, line),
                ),
            },
        },
        Token::GreaterThan => match numbers {
            Some((l, r)) => Ok(Expr::Boolean(l > r)),
            None => Err(
                operand_error(Expr::Boolean(false), Token::GreaterThan, left, right, line),
            ),
        },
        Token::LessThan => match numbers {
            Some((l, r)) => Ok(Expr::Boolean(l < r)),
            None => Err(operand_error(Expr::Boolean(false), Token::LessThan, left, right, line)),
        },
        other => Err(
            ParseError::GeneralError {
                line,
                message: join2("Unsupported operator: ", other.debug().as_str()),
            },
        ),
    }
}

/// The error for an integer result that does not fit in 64 signed bits.
fn overflow_error(line: usize) -> (e: ParseError)
    ensures
        e@ == overflow(line),
{
    ParseError::GeneralError { line, message: String::from_str("Integer overflow") }
}

/// The error for operands that an operator does not take.
fn operand_error(expected: Expr, op: Token, left: Expr, right: Expr, line: usize) -> (e:
    ParseError)
    ensures
        e@ == type_error(expected@, op@, left@, right@, line),
{
    ParseError::TypeError {
        expected,
        found: Expr::BinOp { left: Box::new(left), op, right: Box::new(right) },
        line,
    }
}

/// An argument's value as the callee takes it.
pub fn coerce_argument(kind: ParamKind, value: Expr, source: &Expr, line: usize) -> (r: Result<
    Expr,
    ParseError,
>)
    ensures
        match r {
            Ok(v) => coerce(kind, value@, source@, line) == Ok::<ExprView, ErrorView>(v@),
            Err(e) => coerce(kind, value@, source@, line) == Err::<ExprView, ErrorView>(e@),
        },
{
    match kind {
        ParamKind::Number => match value {
            Expr::Number(n) => Ok(Expr::Number(n)),
            _ => Err(
                ParseError::TypeError { expected: Expr::Number(-1), found: source.clone(), line },
            ),
        },
        ParamKind::Integer => match value {
            Expr::Number(n) => Ok(Expr::Number(n)),
            Expr::StringLiteral(text) => match parse_integer(text.as_str()) {
                Some(n) => Ok(Expr::Number(n)),
                None => Err(
                    ParseError::GeneralError {
                        line,
                        message: join3("Failed to parse ", text.as_str(), " as number"),
                    },
                ),
            },
            _ => Err(
                ParseError::TypeError { expected: Expr::Number(-1), found: source.clone(), line },
            ),
        },
        ParamKind::Text => match value {
            Expr::StringLiteral(text) => Ok(Expr::StringLiteral(text)),
            _ => Err(
                ParseError::TypeError {
                    expected: Expr::StringLiteral(String::new()),
                    found: source.clone(),
                    line,
                },
            ),
        },
        ParamKind::Printed => Ok(Expr::StringLiteral(value_text(&value))),
    }
}

/// What `yap` prints for these values.
pub fn yap_line(values: &Vec<Expr>) -> (s: String)
    ensures
        s@ == yap_text(exprs_view(values@)),
{
    let mut s = String::new();
    let mut i: usize = 0;
    while i < values.len()
        invariant
            i <= values.len(),
            s@ == yap_text(exprs_view(values@).take(i as int)),
        decreases values.len() - i,
    {
        let ghost before = exprs_view(values@).take(i as int);
        let ghost after = exprs_view(values@).take(i + 1);
        assert(after.drop_last() =~= before);
        s.append(value_text(&values[i]).as_str());
        s.append(" ");
        i += 1;
    }
    assert(exprs_view(values@).take(values.len() as int) =~= exprs_view(values@));
    s
}

/// The methods that a class body declares, by name.
pub fn collect_methods(functions: &Vec<Stmt>) -> (definition: ClassDefinition)
    ensures
        definition@ == methods_of(stmts_view(functions@)),
{
    let mut methods: StringHashMap<Vec<Stmt>> = StringHashMap::new();
    let mut i: usize = 0;
    let ghost view = |body: Vec<Stmt>| stmts_view(body@);
    while i < functions.len()
        invariant
            i <= functions.len(),
            view == (|body: Vec<Stmt>| stmts_view(body@)),
            methods@.map_values(view) == methods_of(stmts_view(functions@).take(i as int)),
        decreases functions.len() - i,
    {
        let ghost before = stmts_view(functions@).take(i as int);
        let ghost after = stmts_view(functions@).take(i + 1);
        assert(after.drop_last() =~= before);
        match &functions[i] {
            Stmt::Function { name, body, .. } => {
                let copy = clone_stmts(body);
                methods.insert(name.clone(), copy);
            },
            _ => {},
        }
        i += 1;
    }
    assert(stmts_view(functions@).take(functions.len() as int) =~= stmts_view(functions@));
    ClassDefinition { functions: methods }
}

impl Interpreter {
    /// An evaluator with empty tables and nothing to do.
    pub fn new() -> (itp: Interpreter)
        ensures
            itp@ == (InterpreterView {
                variables: Map::empty(),
                functions: Map::empty(),
                classes: Map::empty(),
                instances: Seq::empty(),
                libs: Map::empty(),
                current_instance: None,
                line: 0,
                frames: Seq::empty(),
                focus: FocusView::Finished(Ok(ExprView::Number(0))),
            }),
    {
        let itp = Interpreter {
            variables: StringHashMap::new(),
            functions: StringHashMap::new(),
            classes: StringHashMap::new(),
            instances: Vec::new(),
            libs: StringHashMap::new(),
            current_instance: None,
            line: 0,
            frames: Vec::new(),
            focus: Focus::Finished(Ok(Expr::Number(0))),
        };
        assert(itp@.variables =~= Map::empty());
        assert(itp@.functions =~= Map::empty());
        assert(itp@.classes =~= Map::empty());
        assert(itp@.instances =~= Seq::empty());
        assert(itp@.libs =~= Map::empty());
        assert(itp@.frames =~= Seq::empty());
        itp
    }

    /// Puts `focus` in focus.
    pub fn look(&mut self, focus: Focus)
        ensures
            final(self)@ == old(self)@.look(focus@),
    {
        self.focus = focus;
    }

    /// Hands `value` to the frame on top, at the next step.
    pub fn give(&mut self, value: Expr)
        ensures
            final(self)@ == old(self)@.give(value@),
    {
        self.focus = Focus::Value(value);
    }

    /// Hands `signal` to the frame on top, at the next step.
    pub fn signal(&mut self, signal: ControlFlow)
        ensures
            final(self)@ == old(self)@.signal(signal@),
    {
        self.focus = Focus::Signal(signal);
    }

    /// Rests until the host has answered `request`.
    pub fn ask(&mut self, request: Request)
        ensures
            final(self)@ == old(self)@.ask(request@),
    {
        self.focus = Focus::Waiting(request);
    }

    /// Ends all work with the error `e`.
    pub fn fail(&mut self, e: ParseError)
        ensures
            final(self)@ == old(self)@.fail(e@),
    {
        self.frames = Vec::new();
        self.focus = Focus::Finished(Err(e));
        assert(frames_view(self.frames@) =~= Seq::empty());
    }

    /// Ends all work with a general error on the current line.
    pub fn general(&mut self, message: String)
        ensures
            final(self)@ == old(self)@.general(message@),
    {
        let line = self.line;
        self.fail(ParseError::GeneralError { line, message });
    }

    /// Puts one more frame on top.
    pub fn push(&mut self, frame: Frame)
        ensures
            final(self)@ == old(self)@.push(frame@),
    {
        self.frames.push(frame);
        assert(frames_view(self.frames@) =~= frames_view(old(self).frames@).push(frame@));
    }

    /// Takes the frame on top, if there is one.
    pub fn pop(&mut self) -> (frame: Option<Frame>)
        ensures
            match frame {
                Some(f) => old(self)@.frames.len() > 0 && f@ == old(self)@.frames.last()
                    && final(self)@ == old(self)@.pop(),
                None => old(self)@.frames.len() == 0 && final(self)@ == old(self)@,
            },
    {
        let frame = self.frames.pop();
        if frame.is_some() {
            assert(frames_view(self.frames@) =~= frames_view(old(self).frames@).drop_last());
        }
        frame
    }

    /// Binds the variable `name` to `value`.
    pub fn bind(&mut self, name: String, value: Expr)
        ensures
            final(self)@ == old(self)@.bind(name@, value@),
    {
        self.variables.insert(name, value);
        assert(self@.variables =~= old(self)@.variables.insert(name@, value@));
    }

    /// Starts to run `statements`.
    pub fn start_block(&mut self, statements: Vec<Stmt>)
        ensures
            final(self)@ == old(self)@.start_block(stmts_view(statements@)),
    {
        self.push(Frame::Block { statements, next: 0 });
        self.signal(ControlFlow::Proceed);
    }

    /// Enters a call with `instance` as the current instance.
    pub fn enter(&mut self, instance: Option<usize>)
        ensures
            final(self)@ == old(self)@.enter(instance),
    {
        let boundary = Frame::CallBoundary { instance: self.current_instance, line: self.line };
        self.push(boundary);
        self.current_instance = instance;
    }

    /// A copy of the value of the variable `name`, if it is bound.
    pub fn variable(&self, name: &String) -> (value: Option<Expr>)
        ensures
            match value {
                Some(v) => self@.variables.contains_key(name@) && self@.variables[name@] == v@,
                None => !self@.variables.contains_key(name@),
            },
    {
        match self.variables.get(name.as_str()) {
            Some(v) => Some(v.clone()),
            None => None,
        }
    }

    /// A copy of the body of the function `name`, if it is declared.
    pub fn function_body(&self, name: &String) -> (body: Option<Vec<Stmt>>)
        ensures
            match body {
                Some(b) => self@.functions.contains_key(name@) && self@.functions[name@]
                    == stmts_view(b@),
                None => !self@.functions.contains_key(name@),
            },
    {
        match self.functions.get(name.as_str()) {
            Some(b) => Some(clone_stmts(b)),
            None => None,
        }
    }

    /// Whether the class `class_name` is declared, and a copy of the body
    /// of its method `name`, if it has that method.
    pub fn method_body(&self, class_name: &String, name: &str) -> (found: Option<
        Option<Vec<Stmt>>,
    >)
        ensures
            match found {
                Some(Some(b)) => self@.classes.contains_key(class_name@)
                    && self@.classes[class_name@].contains_key(name@)
                    && self@.classes[class_name@][name@] == stmts_view(b@),
                Some(None) => self@.classes.contains_key(class_name@)
                    && !self@.classes[class_name@].contains_key(name@),
                None => !self@.classes.contains_key(class_name@),
            },
    {
        match self.classes.get(class_name.as_str()) {
            Some(definition) => match definition.functions.get(name) {
                Some(b) => Some(Some(clone_stmts(b))),
                None => Some(None),
            },
            None => None,
        }
    }

    /// The text that `value` holds. Any value but a string is a type error
    /// that names `source`, the expression that gave the value.
    pub fn expr_to_string(&self, value: &Expr, source: &Expr) -> (r: Result<String, ParseError>)
        ensures
            match r {
                Ok(s) => value@ == ExprView::StringLiteral(s@),
                Err(e) => !(value@ is StringLiteral) && e@ == (ErrorView::TypeError {
                    expected: ExprView::StringLiteral(Seq::empty()),
                    found: source@,
                    line: self@.line,
                }),
            },
    {
        match value {
            Expr::StringLiteral(text) => Ok(text.clone()),
            _ => Err(
                ParseError::TypeError {
                    expected: Expr::StringLiteral(String::new()),
                    found: source.clone(),
                    line: self.line,
                },
            ),
        }
    }

    /// The integer that `value` holds. Any other value is a type error that
    /// names `source`, the expression that gave the value.
    pub fn expr_to_number(&self, value: &Expr, source: &Expr) -> (r: Result<i64, ParseError>)
        ensures
            match r {
                Ok(n) => value@ == ExprView::Number(n),
                Err(e) => !(value@ is Number) && e@ == (ErrorView::TypeError {
                    expected: ExprView::Number(-1i64),
                    found: source@,
                    line: self@.line,
                }),
            },
    {
        match value {
            Expr::Number(n) => Ok(*n),
            _ => Err(
                ParseError::TypeError {
                    expected: Expr::Number(-1),
                    found: source.clone(),
                    line: self.line,
                },
            ),
        }
    }

    /// A copy of the argument at `index`, if there are exactly `expected`
    /// arguments and `index` is one of them.
    pub fn consume_argument(&self, args: &Vec<Expr>, expected: usize, index: usize) -> (r: Result<
        Expr,
        ParseError,
    >)
        ensures
            match r {
                Ok(arg) => index < args.len() && args.len() == expected && arg@
                    == args@[index as int]@,
                Err(e) => (index >= args.len() || args.len() != expected) && e@
                    == (ErrorView::ArgumentMismatch {
                    expected,
                    found: args.len(),
                    line: self@.line,
                }),
            },
    {
        if index >= args.len() || args.len() != expected {
            return Err(
                ParseError::ArgumentMismatch { found: args.len(), expected, line: self.line },
            );
        }
        Ok(args[index].clone())
    }
}


/// Decides whether a value counts as true in a condition.
pub fn is_truthy(value: &Expr) -> (b: bool)
    ensures
        b == truthy(value@),
{
    match value {
        Expr::Boolean(b) => *b,
        _ => true,
    }
}

/// What a call gives when its body ends with `signal`.
pub fn value_of_call(signal: ControlFlow) -> (value: Expr)
    ensures
        value@ == call_value(signal@),
{
    match signal {
        ControlFlow::Return(value) => value,
        _ => Expr::Number(0),
    }
}

impl Interpreter {
    /// Starts the evaluation of `expr`: a literal or a bound name gives its
    /// value at once; anything else leaves a frame behind and looks at a
    /// part first.
    pub fn evaluate_expression(&mut self, expr: Expr)
        ensures
            final(self)@ == old(self)@.evaluate(expr@),
    {
        proof {
            reveal(InterpreterView::evaluate);
        }
        match expr {
            Expr::Ident(name) => {
                match self.variable(&name) {
                    Some(value) => self.give(value),
                    None => {
                        let line = self.line;
                        self.fail(ParseError::UnknownVariable { name, line });
                    },
                }
            },
            Expr::Number(n) => self.give(Expr::Number(n)),
            Expr::StringLiteral(text) => self.give(Expr::StringLiteral(text)),
            Expr::Boolean(b) => self.give(Expr::Boolean(b)),
            Expr::List(items) => {
                if items.len() == 0 {
                    assert(exprs_view(items@) =~= Seq::empty());
                    self.give(Expr::List(items));
                } else {
                    let first = items[0].clone();
                    let done: Vec<Expr> = Vec::new();
                    assert(exprs_view(done@) =~= Seq::empty());
                    self.push(Frame::Elements { items, done });
                    self.look(Focus::Expression(first));
                }
            },
            Expr::BinOp { left, op, right } => {
                self.push(Frame::Right { op, right: *right });
                self.look(Focus::Expression(*left));
            },
            Expr::FunctionCall { name, object, args } => {
                self.execute_function_call(name, object, args);
            },
            Expr::NewInstance { class_name, args } => {
                self.construct(class_name);
            },
            other => {
                let message = join2("Unsupported expression ", other.debug().as_str());
                self.general(message);
            },
        }
    }

    /// Starts the making of an instance of `class_name`.
    pub fn construct(&mut self, class_name: String)
        ensures
            final(self)@ == old(self)@.construct(class_name@),
    {
        match self.method_body(&class_name, "__edge__") {
            None => {
                let message = join2("Unknown class: ", class_name.as_str());
                self.general(message);
            },
            Some(None) => {
                let line = self.line;
                self.fail(ParseError::UnknownFunction { name: String::from_str("__edge__"), line });
            },
            Some(Some(body)) => {
                self.push(Frame::Construct { class_name });
                self.start_block(body);
            },
        }
    }

    /// Starts a call of the method `name` of `class_name` on `instance`.
    pub fn method_call(&mut self, class_name: &String, instance: usize, name: &String, object: &String)
        ensures
            final(self)@ == old(self)@.method_call(class_name@, instance, name@, object@),
    {
        match self.method_body(class_name, name.as_str()) {
            None => {
                let message = join2("Unknown class: ", class_name.as_str());
                self.general(message);
            },
            Some(None) => {
                let message = join4(
                    "Unknown function: ",
                    name.as_str(),
                    " on object ",
                    object.as_str(),
                );
                self.general(message);
            },
            Some(Some(body)) => {
                self.enter(Some(instance));
                self.start_block(body);
            },
        }
    }

    /// Starts a call of the user-defined function `name`. The arguments are
    /// not used: a function has no parameters.
    pub fn execute_user_function(&mut self, name: String, args: Vec<Expr>)
        ensures
            final(self)@ == old(self)@.user_call(name@),
    {
        match self.function_body(&name) {
            Some(body) => {
                self.enter(None);
                self.start_block(body);
            },
            None => {
                let line = self.line;
                self.fail(ParseError::UnknownFunction { name, line });
            },
        }
    }

    /// Starts a call: finds what `name` on `object` calls, and enters it.
    pub fn execute_function_call(&mut self, name: String, object: Option<Box<Expr>>, args: Vec<Expr>)
        ensures
            final(self)@ == old(self)@.call(name@, crate::ast::object_view(object), exprs_view(args@)),
    {
        proof {
            reveal(InterpreterView::call);
        }
        match object {
            Some(receiver) => match *receiver {
                Expr::Ident(object) => {
                    if is_text(&object, "self") {
                        match self.current_instance {
                            None => {
                                self.general(
                                    String::from_str(
                                        "Cannot use 'self' outside of a method context",
                                    ),
                                );
                            },
                            Some(id) => {
                                if id < self.instances.len() {
                                    let class_name = self.instances[id].class_name.clone();
                                    self.method_call(&class_name, id, &name, &object);
                                } else {
                                    self.general(String::from_str("Current instance not found"));
                                }
                            },
                        }
                    } else {
                        match self.variable(&object) {
                            Some(value) => match value {
                                Expr::Instance { class_name, instance_id } => {
                                    self.method_call(&class_name, instance_id, &name, &object);
                                },
                                _ => {
                                    self.general(
                                        String::from_str(
                                            "Object calls of variables are only supported for instance variables.",
                                        ),
                                    );
                                },
                            },
                            None => match self.native_function(&object, &name) {
                                Some(Some(f)) => {
                                    self.invoke(Callee::Native(f), args);
                                },
                                Some(None) => {
                                    let message = join4(
                                        "Unknown function: ",
                                        name.as_str(),
                                        " on object ",
                                        object.as_str(),
                                    );
                                    self.general(message);
                                },
                                None => {
                                    let message = join2("Unknown library: ", object.as_str());
                                    self.general(message);
                                },
                            },
                        }
                    }
                },
                _ => {
                    self.general(
                        String::from_str("Object calls of other types than IDENT are not supported"),
                    );
                },
            },
            None => {
                if is_text(&name, "aura") {
                    self.invoke(Callee::Aura, args);
                } else if is_text(&name, "yap") {
                    self.invoke(Callee::Yap, args);
                } else if is_text(&name, "attemptrizz") {
                    self.invoke(Callee::AttemptRizz, args);
                } else {
                    self.execute_user_function(name, args);
                }
            },
        }
    }

    /// Whether the library `library` is imported, and its function `name`,
    /// if it has that function.
    pub fn native_function(&self, library: &String, name: &String) -> (found: Option<
        Option<NativeFunction>,
    >)
        ensures
            match found {
                Some(Some(f)) => self@.libs.contains_key(library@)
                    && self@.libs[library@].functions.contains_key(name@)
                    && self@.libs[library@].functions[name@] == f,
                Some(None) => self@.libs.contains_key(library@)
                    && !self@.libs[library@].functions.contains_key(name@),
                None => !self@.libs.contains_key(library@),
            },
    {
        match self.libs.get(library.as_str()) {
            Some(lib) => match lib.functions.get(name.as_str()) {
                Some(f) => Some(Some(*f)),
                None => Some(None),
            },
            None => None,
        }
    }

    /// Starts a builtin or native call: checks the number of arguments, then
    /// turns to the first argument.
    pub fn invoke(&mut self, callee: Callee, args: Vec<Expr>)
        ensures
            final(self)@ == old(self)@.invoke(callee, exprs_view(args@)),
    {
        let done: Vec<Expr> = Vec::new();
        assert(exprs_view(done@) =~= Seq::empty());
        if callee.ignores_arguments() {
            self.apply(callee, done);
            return ;
        }
        match callee.arity() {
            Some(n) => {
                if args.len() != n {
                    let line = self.line;
                    self.fail(
                        ParseError::ArgumentMismatch { expected: n, found: args.len(), line },
                    );
                    return ;
                }
            },
            None => {},
        }
        if args.len() == 0 {
            self.apply(callee, done);
        } else {
            let first = args[0].clone();
            self.push(Frame::Arguments { callee, args, done });
            self.look(Focus::Expression(first));
        }
    }

    /// Runs a builtin or native call on the values of its arguments.
    pub fn apply(&mut self, callee: Callee, values: Vec<Expr>)
        ensures
            final(self)@ == old(self)@.apply(callee, exprs_view(values@)),
    {
        proof {
            reveal(InterpreterView::apply);
        }
        match callee.arity() {
            Some(n) => {
                if values.len() != n {
                    self.fail(
                        ParseError::Other(
                            String::from_str("a call reached its body without its arguments"),
                        ),
                    );
                    return ;
                }
            },
            None => {},
        }
        match callee {
            Callee::Aura => {
                let value = values[0].clone();
                self.give(value);
            },
            Callee::Yap => {
                let text = yap_line(&values);
                self.ask(Request::Print(text));
            },
            Callee::AttemptRizz => {
                let text = value_text(&values[0]);
                self.ask(Request::Prompt(text));
            },
            Callee::Native(f) => {
                crate::libs::native(self, f, &values);
            },
        }
    }

    /// Goes on after the host's reply to the request that the evaluator
    /// waits for. An evaluator that waits for nothing stays as it is.
    pub fn resume(&mut self, reply: Result<Expr, ParseError>)
        ensures
            final(self)@ == old(self)@.resume(
                match reply {
                    Ok(v) => Ok(v@),
                    Err(e) => Err(e@),
                },
            ),
    {
        proof {
            reveal(InterpreterView::resume);
        }
        let value = match &self.focus {
            Focus::Waiting(_) => match reply {
                Err(e) => {
                    self.fail(e);
                    return ;
                },
                Ok(value) => value,
            },
            _ => {
                return ;
            },
        };
        match &self.focus {
            Focus::Waiting(Request::Now) => {
                crate::libs::skui::clock::clock_tick_wait(self, number_value(&value));
                return ;
            },
            Focus::Waiting(Request::Sleep { .. }) => {
                crate::libs::skui::clock::clock_tick_end(self, number_value(&value));
                return ;
            },
            _ => {},
        }
        let answer: Result<Expr, ParseError> = match &self.focus {
            Focus::Waiting(request) => match request {
                Request::Print(_) => Ok(Expr::Boolean(true)),
                Request::Prompt(_) => Ok(
                    Expr::StringLiteral(trim(value_text(&value).as_str())),
                ),
                Request::Random { min, max } => match value {
                    Expr::Number(n) => {
                        if *min <= n && n <= *max {
                            Ok(Expr::Number(n))
                        } else {
                            Err(
                                ParseError::Other(
                                    String::from_str("the number drawn is out of range"),
                                ),
                            )
                        }
                    },
                    _ => Err(
                        ParseError::Other(String::from_str("the number drawn is out of range")),
                    ),
                },
                Request::Animation => Ok(Expr::Number(0)),
                Request::CreateWindow { .. } => Ok(Expr::Boolean(true)),
                Request::PumpEvents => Ok(value),
                Request::FillScreen { .. } => Ok(Expr::StringLiteral(String::from_str("ok"))),
                _ => Ok(value),
            },
            _ => Ok(value),
        };
        match answer {
            Ok(v) => self.give(v),
            Err(e) => self.fail(e),
        }
    }

    /// Hands `value` to the frame on top.
    pub fn deliver_value(&mut self, value: Expr)
        ensures
            final(self)@ == old(self)@.deliver_value(value@),
    {
        proof {
            reveal(InterpreterView::deliver_value);
        }
        let ghost before = self@;
        let frame = match self.pop() {
            Some(frame) => frame,
            None => {
                self.look(Focus::Finished(Ok(value)));
                return ;
            },
        };
        proof {
            assert(before.pop().push(frame@).frames =~= before.frames);
        }
        match frame {
            Frame::Right { op, right } => {
                self.push(Frame::Apply { op, left: value });
                self.look(Focus::Expression(right));
            },
            Frame::Apply { op, left } => {
                match apply_operator(op, left, value, self.line) {
                    Ok(result) => self.give(result),
                    Err(e) => self.fail(e),
                }
            },
            Frame::Elements { items, done } => {
                let mut done = done;
                proof {
                    lemma_exprs_view_push(done@, value);
                }
                done.push(value);
                if done.len() < items.len() {
                    let next = items[done.len()].clone();
                    self.push(Frame::Elements { items, done });
                    self.look(Focus::Expression(next));
                } else {
                    self.give(Expr::List(done));
                }
            },
            Frame::Bind { name } => {
                self.bind(name, value);
                self.signal(ControlFlow::Proceed);
            },
            Frame::Discard => {
                self.signal(ControlFlow::Proceed);
            },
            Frame::ReturnValue => {
                self.signal(ControlFlow::Return(value));
            },
            Frame::Loop { condition, body, line } => {
                if is_truthy(&value) {
                    let statements = clone_stmts(&body);
                    self.push(Frame::Loop { condition, body, line });
                    self.start_block(statements);
                } else {
                    self.signal(ControlFlow::Proceed);
                }
            },
            Frame::Branch { then_branch, else_branch } => {
                if is_truthy(&value) {
                    self.start_block(then_branch);
                } else {
                    match else_branch {
                        Some(statements) => self.start_block(statements),
                        None => self.signal(ControlFlow::Proceed),
                    }
                }
            },
            Frame::Items { iterator, body } => {
                match value {
                    Expr::List(items) => {
                        self.push(Frame::Each { iterator, items, next: 0, body });
                        self.signal(ControlFlow::Proceed);
                    },
                    _ => {
                        self.general(String::from_str("Expected list after 'in'"));
                    },
                }
            },
            Frame::Arguments { callee, args, done } => {
                if done.len() < args.len() {
                    let mut done = done;
                    match coerce_argument(
                        callee.kind(done.len()),
                        value,
                        &args[done.len()],
                        self.line,
                    ) {
                        Err(e) => self.fail(e),
                        Ok(taken) => {
                            proof {
                                lemma_exprs_view_push(done@, taken);
                            }
                            done.push(taken);
                            if done.len() < args.len() {
                                let next = args[done.len()].clone();
                                self.push(Frame::Arguments { callee, args, done });
                                self.look(Focus::Expression(next));
                            } else {
                                self.apply(callee, done);
                            }
                        },
                    }
                } else {
                    self.fail(
                        ParseError::Other(
                            String::from_str("a value reached a frame that takes none"),
                        ),
                    );
                }
            },
            _ => {
                self.fail(
                    ParseError::Other(String::from_str("a value reached a frame that takes none")),
                );
            },
        }
    }

    /// Hands `signal` to the frame on top.
    pub fn deliver_signal(&mut self, signal: ControlFlow)
        ensures
            final(self)@ == old(self)@.deliver_signal(signal@),
    {
        proof {
            reveal(InterpreterView::deliver_signal);
        }
        let ghost before = self@;
        let frame = match self.pop() {
            Some(frame) => frame,
            None => {
                self.look(Focus::Finished(Ok(value_of_call(signal))));
                return ;
            },
        };
        proof {
            assert(before.pop().push(frame@).frames =~= before.frames);
        }
        match frame {
            Frame::Block { statements, next } => {
                if matches!(signal, ControlFlow::Proceed) {
                    if next < statements.len() {
                        let statement = statements[next].clone();
                        self.push(Frame::Block { statements, next: next + 1 });
                        self.look(Focus::Statement(statement));
                    } else {
                        self.signal(ControlFlow::Proceed);
                    }
                } else {
                    self.signal(signal);
                }
            },
            Frame::Program { statements, next } => {
                if next < statements.len() {
                    let statement = statements[next].clone();
                    self.push(Frame::Program { statements, next: next + 1 });
                    self.look(Focus::Statement(statement));
                } else {
                    self.signal(ControlFlow::Proceed);
                }
            },
            Frame::Loop { condition, body, line } => {
                if matches!(signal, ControlFlow::Return(_)) {
                    self.signal(signal);
                } else {
                    let again = condition.clone();
                    self.push(Frame::Loop { condition, body, line });
                    self.line = line;
                    self.look(Focus::Expression(again));
                }
            },
            Frame::Each { iterator, items, next, body } => {
                if matches!(signal, ControlFlow::Return(_)) {
                    self.signal(signal);
                } else if next < items.len() {
                    let item = items[next].clone();
                    let statements = clone_stmts(&body);
                    self.bind(iterator.clone(), item);
                    self.push(Frame::Each { iterator, items, next: next + 1, body });
                    self.start_block(statements);
                } else {
                    self.signal(ControlFlow::Proceed);
                }
            },
            Frame::CallBoundary { instance, line } => {
                self.current_instance = instance;
                self.line = line;
                self.give(value_of_call(signal));
            },
            Frame::Construct { class_name } => {
                let instance_id = self.instances.len();
                let variables: StringHashMap<Expr> = StringHashMap::new();
                self.instances.push(Instance { variables, class_name: class_name.clone() });
                proof {
                    assert(variables@.map_values(|v: Expr| v@) =~= Map::empty());
                    assert(self@.instances =~= before.instances.push(
                        InstanceView { variables: Map::empty(), class_name: class_name@ },
                    ));
                }
                self.give(Expr::Instance { class_name, instance_id });
            },
            _ => {
                self.fail(
                    ParseError::Other(String::from_str("a signal reached a frame that takes none")),
                );
            },
        }
    }

    /// Starts the execution of `stmt`.
    pub fn execute_statement(&mut self, stmt: Stmt)
        ensures
            final(self)@ == old(self)@.execute(stmt@),
    {
        proof {
            reveal(InterpreterView::execute);
        }
        match stmt {
            Stmt::Class { name, functions, line } => {
                self.line = line;
                let definition = collect_methods(&functions);
                self.classes.insert(name, definition);
                assert(self@.classes =~= old(self)@.classes.insert(name@, definition@));
                self.signal(ControlFlow::Proceed);
            },
            Stmt::Function { name, body, line } => {
                self.line = line;
                self.functions.insert(name, body);
                assert(self@.functions =~= old(self)@.functions.insert(name@, stmts_view(body@)));
                self.signal(ControlFlow::Proceed);
            },
            Stmt::VariableAssign { name, object, value, line } => {
                self.line = line;
                self.push(Frame::Bind { name });
                self.look(Focus::Expression(value));
            },
            Stmt::While { condition, body, line } => {
                self.line = line;
                let first = condition.clone();
                self.push(Frame::Loop { condition, body, line });
                self.look(Focus::Expression(first));
            },
            Stmt::If { condition, then_branch, else_branch, line } => {
                self.line = line;
                self.push(Frame::Branch { then_branch, else_branch });
                self.look(Focus::Expression(condition));
            },
            Stmt::Expression { value, line } => {
                self.line = line;
                self.push(Frame::Discard);
                self.look(Focus::Expression(value));
            },
            Stmt::Return { value, line } => {
                self.line = line;
                self.push(Frame::ReturnValue);
                self.look(Focus::Expression(value));
            },
            Stmt::Import { library, line } => {
                self.line = line;
                match load_library(&library) {
                    Some(loaded) => {
                        self.libs.insert(library, loaded);
                        assert(self@.libs =~= old(self)@.libs.insert(library@, loaded@));
                        self.signal(ControlFlow::Proceed);
                    },
                    None => {
                        let message = join2("Unknown library gyatt import: ", library.as_str());
                        self.general(message);
                    },
                }
            },
            Stmt::Continue { line } => {
                self.line = line;
                self.signal(ControlFlow::Continue);
            },
            Stmt::ForLoop { iterator, collection, body, line } => {
                self.line = line;
                self.push(Frame::Items { iterator, body });
                self.look(Focus::Expression(collection));
            },
        }
    }

    /// Whether the evaluator needs no step: it waits for the host, or its
    /// work has ended.
    pub fn rests(&self) -> (b: bool)
        ensures
            b == self@.rests(),
    {
        matches!(self.focus, Focus::Waiting(_) | Focus::Finished(_))
    }

    /// Takes one step. An evaluator that rests stays as it is.
    pub fn step(&mut self)
        ensures
            final(self)@ == old(self)@.step(),
    {
        if self.rests() {
            return ;
        }
        let mut focus = Focus::Finished(Ok(Expr::Number(0)));
        core::mem::swap(&mut self.focus, &mut focus);
        match focus {
            Focus::Expression(expr) => self.evaluate_expression(expr),
            Focus::Statement(stmt) => self.execute_statement(stmt),
            Focus::Value(value) => self.deliver_value(value),
            Focus::Signal(signal) => self.deliver_signal(signal),
            _ => {},
        }
    }

    /// Takes steps until the evaluator rests, but `budget` steps at most.
    pub fn advance(&mut self, budget: u64)
        ensures
            final(self)@ == old(self)@.run(budget as nat),
    {
        let mut left = budget;
        while left > 0 && !self.rests()
            invariant
                self@.run(left as nat) == old(self)@.run(budget as nat),
            decreases left,
        {
            self.step();
            left -= 1;
        }
    }

    /// Loads a program: drops the work that was under way, and makes the
    /// evaluator ready to run `statements` from the first one. Every
    /// statement of a program runs, whatever signal the one before it gave.
    pub fn interpret(&mut self, statements: Vec<Stmt>)
        ensures
            final(self)@ == old(self)@.load(stmts_view(statements@)),
    {
        self.frames = Vec::new();
        assert(frames_view(self.frames@) =~= Seq::empty());
        self.push(Frame::Program { statements, next: 0 });
        self.signal(ControlFlow::Proceed);
    }

    /// Takes the result of the work that has ended, and leaves the
    /// evaluator with nothing to do. Gives nothing while work is left.
    pub fn finish(&mut self) -> (result: Option<Result<Expr, ParseError>>)
        ensures
            match result {
                Some(r) => old(self)@.focus == FocusView::Finished(
                    match r {
                        Ok(v) => Ok(v@),
                        Err(e) => Err(e@),
                    },
                ) && final(self)@ == old(self)@.idle(),
                None => !(old(self)@.focus is Finished) && final(self)@ == old(self)@,
            },
    {
        if !matches!(self.focus, Focus::Finished(_)) {
            return None;
        }
        let mut focus = Focus::Finished(Ok(Expr::Number(0)));
        core::mem::swap(&mut self.focus, &mut focus);
        match focus {
            Focus::Finished(result) => Some(result),
            _ => None,
        }
    }
}

} // verus!
