use vstd::prelude::*;
use crate::ast::{ExprView, StmtView};
use crate::cursor::{lemma_advance, ParserView};
use crate::error::ErrorView;
use crate::lexer::{is_word_char, lemma_after_comment, word_end, LexerView};
use crate::libs::library_named;
use crate::machine::{ControlFlowView, FocusView, FrameView};
use crate::parser::{has_constructor, is_constructor, precedence};
use crate::semantics::{binary, fits, methods_of, quotient, InterpreterView};
use crate::text::{
    all_digits, digit_char, digits_of, digits_value, integer_of, integer_text, is_digit,
    is_whitespace,
};
use crate::token::{token_debug, TokenView};

verus! {

/// A number literal is an operand with the literal's value.
pub proof fn number_literal_is_operand(s: ParserView, n: i64)
    requires
        s.current == TokenView::Number(n),
        s.advance().0 is Ok,
    ensures
        s.primary() == (Ok::<ExprView, ErrorView>(ExprView::Number(n)), s.advance().1),
{
}

/// A number literal that no operator follows is an expression with the
/// literal's value.
pub proof fn number_literal_is_expression(s: ParserView, n: i64)
    requires
        s.current == TokenView::Number(n),
        s.advance().0 is Ok,
        precedence(s.advance().1.current) is None,
    ensures
        s.expression() == (Ok::<ExprView, ErrorView>(ExprView::Number(n)), s.advance().1),
{
    broadcast use lemma_advance;

    number_literal_is_operand(s, n);
}

/// A minus sign and the number literal that follows it at once are an
/// operand with the negated value. The literal is not the least 64-bit
/// integer, which no literal writes.
pub proof fn negative_literal_is_operand(s: ParserView, n: i64)
    requires
        s.current == TokenView::Minus,
        s.advance().0 is Ok,
        s.advance().1.current == TokenView::Number(n),
        s.advance().1.advance().0 is Ok,
        n != i64::MIN,
    ensures
        s.primary() == (
            Ok::<ExprView, ErrorView>(ExprView::Number((-n) as i64)),
            s.advance().1.advance().1,
        ),
{
}

/// A minus sign before anything but a number literal is an error of the
/// parser on the line of what follows the sign, and nothing after the sign
/// is consumed: a second minus sign, a name and an opening bracket are
/// refused alike.
pub proof fn negation_needs_a_number_literal(s: ParserView)
    requires
        s.current == TokenView::Minus,
        s.advance().0 is Ok,
        !(s.advance().1.current is Number),
    ensures
        s.primary() == (
            Err::<ExprView, ErrorView>(
                ErrorView::GeneralError {
                    line: s.advance().1.line(),
                    message: "Expected a number after '-', found "@ + token_debug(
                        s.advance().1.current,
                    ),
                },
            ),
            s.advance().1,
        ),
{
}

/// A class declaration parses only if the class body defines the
/// constructor.
pub proof fn parsed_class_has_constructor(s: ParserView)
    requires
        s.class_decl().0 is Ok,
    ensures
        s.class_decl().0->Ok_0 is Class,
        has_constructor(s.class_decl().0->Ok_0->Class_functions),
{
}

/// The methods of a class body that defines the constructor include the
/// constructor.
pub proof fn constructor_is_a_method(functions: Seq<StmtView>)
    requires
        has_constructor(functions),
    ensures
        methods_of(functions).contains_key("__edge__"@),
    decreases functions.len(),
{
    let i = choose|i: int| 0 <= i < functions.len() && is_constructor(#[trigger] functions[i]);
    if i == functions.len() - 1 {
    } else {
        assert(is_constructor(functions.drop_last()[i]));
        constructor_is_a_method(functions.drop_last());
    }
}

/// Once a parsed class is declared, making an instance of it finds the
/// constructor: the constructor's statements start to run.
pub proof fn instance_of_parsed_class_starts(
    s: InterpreterView,
    name: Seq<char>,
    functions: Seq<StmtView>,
    line: usize,
)
    requires
        has_constructor(functions),
    ensures
        ({
            let declared = s.execute(StmtView::Class { name, functions, line });
            declared.construct(name) == declared.push(
                FrameView::Construct { class_name: name },
            ).start_block(methods_of(functions)["__edge__"@])
        }),
{
    reveal(InterpreterView::execute);
    constructor_is_a_method(functions);
}

/// A literal's value is the literal.
pub open spec fn is_literal(e: ExprView) -> bool {
    e is Number || e is StringLiteral || e is Boolean
}

/// An operator between two literals is evaluated in five steps: the result
/// is what the operator gives on the two literals, handed to the frame that
/// waited for it; an error ends all work.
pub proof fn operator_on_literals(s: InterpreterView, left: ExprView, op: TokenView, right: ExprView)
    requires
        is_literal(left),
        is_literal(right),
    ensures
        s.look(
            FocusView::Expression(
                ExprView::BinOp { left: Box::new(left), op, right: Box::new(right) },
            ),
        ).run(5) == (match binary(op, left, right, s.line) {
            Ok(v) => s.give(v),
            Err(e) => s.fail(e),
        }),
{
    reveal(InterpreterView::evaluate);
    reveal(InterpreterView::deliver_value);
    reveal_with_fuel(InterpreterView::run, 6);
    assert(s.idle().push(FrameView::Right { op, right }).idle().pop().frames =~= s.frames);
    assert(s.idle().push(FrameView::Apply { op, left }).idle().pop().frames =~= s.frames);
}

/// On two integers the operators compute as the machine's integers do:
/// sums, differences and products that fit in 64 signed bits, quotients
/// rounded towards zero, and comparisons. A division by zero is the error
/// of that name, on the given line.
pub proof fn integer_operators(a: i64, b: i64, line: usize)
    ensures
        fits(a + b) ==> binary(TokenView::Plus, ExprView::Number(a), ExprView::Number(b), line)
            == Ok::<ExprView, ErrorView>(ExprView::Number((a + b) as i64)),
        fits(a - b) ==> binary(TokenView::Minus, ExprView::Number(a), ExprView::Number(b), line)
            == Ok::<ExprView, ErrorView>(ExprView::Number((a - b) as i64)),
        fits(a * b) ==> binary(TokenView::Star, ExprView::Number(a), ExprView::Number(b), line)
            == Ok::<ExprView, ErrorView>(ExprView::Number((a * b) as i64)),
        b != 0 && fits(quotient(a as int, b as int)) ==> binary(
            TokenView::Slash,
            ExprView::Number(a),
            ExprView::Number(b),
            line,
        ) == Ok::<ExprView, ErrorView>(ExprView::Number(quotient(a as int, b as int) as i64)),
        binary(TokenView::Slash, ExprView::Number(a), ExprView::Number(0), line) == Err::<
            ExprView,
            ErrorView,
        >(ErrorView::DivisionByZero { line }),
        binary(TokenView::Rizz, ExprView::Number(a), ExprView::Number(b), line) == Ok::<
            ExprView,
            ErrorView,
        >(ExprView::Boolean(a == b)),
        binary(TokenView::GreaterThan, ExprView::Number(a), ExprView::Number(b), line) == Ok::<
            ExprView,
            ErrorView,
        >(ExprView::Boolean(a > b)),
        binary(TokenView::LessThan, ExprView::Number(a), ExprView::Number(b), line) == Ok::<
            ExprView,
            ErrorView,
        >(ExprView::Boolean(a < b)),
{
}

/// The quotient is the one integer whose product with the divisor differs
/// from the dividend by less than the divisor, on the dividend's side of
/// zero.
pub proof fn quotient_rounds_towards_zero(x: int, d: int)
    requires
        d != 0,
    ensures
        ({
            let q = quotient(x, d);
            let r = x - q * d;
            &&& (x >= 0 ==> 0 <= r)
            &&& (x <= 0 ==> r <= 0)
            &&& (d > 0 ==> -d < r < d)
            &&& (d < 0 ==> d < r < -d)
        }),
{
    let q = quotient(x, d);
    if x > 0 && d > 0 {
        vstd::arithmetic::div_mod::lemma_fundamental_div_mod(x, d);
        vstd::arithmetic::div_mod::lemma_mod_bound(x, d);
    } else if x < 0 && d < 0 {
        vstd::arithmetic::div_mod::lemma_fundamental_div_mod(-x, -d);
        vstd::arithmetic::div_mod::lemma_mod_bound(-x, -d);
        assert(x - q * d == -((-x) % (-d))) by (nonlinear_arith)
            requires
                q == (-x) / (-d),
                (-x) == (-d) * ((-x) / (-d)) + (-x) % (-d),
        ;
    } else if x < 0 {
        vstd::arithmetic::div_mod::lemma_fundamental_div_mod(-x, d);
        vstd::arithmetic::div_mod::lemma_mod_bound(-x, d);
        assert(x - q * d == -((-x) % d)) by (nonlinear_arith)
            requires
                q == -((-x) / d),
                (-x) == d * ((-x) / d) + (-x) % d,
        ;
    } else if x > 0 {
        vstd::arithmetic::div_mod::lemma_fundamental_div_mod(x, -d);
        vstd::arithmetic::div_mod::lemma_mod_bound(x, -d);
        assert(x - q * d == x % (-d)) by (nonlinear_arith)
            requires
                q == -(x / (-d)),
                x == (-d) * (x / (-d)) + x % (-d),
        ;
    }
}

/// A statement that divides an integer literal by the literal zero ends all
/// work with a division by zero on the statement's line.
pub proof fn division_by_zero_has_the_line(s: InterpreterView, a: i64, line: usize)
    ensures
        s.look(
            FocusView::Statement(
                StmtView::Expression {
                    value: ExprView::BinOp {
                        left: Box::new(ExprView::Number(a)),
                        op: TokenView::Slash,
                        right: Box::new(ExprView::Number(0)),
                    },
                    line,
                },
            ),
        ).run(6) == s.at_line(line).fail(ErrorView::DivisionByZero { line }),
{
    reveal(InterpreterView::execute);
    reveal_with_fuel(InterpreterView::run, 7);
    let base = s.idle().at_line(line).push(FrameView::Discard);
    operator_on_literals(base, ExprView::Number(a), TokenView::Slash, ExprView::Number(0));
    integer_operators(a, 0, line);
}

/// On two strings `+` joins them and `==` compares their characters; with
/// a string on either side, `-`, `*`, `/`, `>` and `<` are type errors on
/// the given line.
pub proof fn string_operators(left: ExprView, op: TokenView, right: ExprView, line: usize)
    requires
        left is StringLiteral || right is StringLiteral,
    ensures
        left is StringLiteral && right is StringLiteral ==> binary(
            TokenView::Plus,
            left,
            right,
            line,
        ) == Ok::<ExprView, ErrorView>(
            ExprView::StringLiteral(left->StringLiteral_0 + right->StringLiteral_0),
        ),
        left is StringLiteral && right is StringLiteral ==> binary(
            TokenView::Rizz,
            left,
            right,
            line,
        ) == Ok::<ExprView, ErrorView>(
            ExprView::Boolean(left->StringLiteral_0 == right->StringLiteral_0),
        ),
        op == TokenView::Minus || op == TokenView::Star || op == TokenView::Slash || op
            == TokenView::GreaterThan || op == TokenView::LessThan ==> binary(
            op,
            left,
            right,
            line,
        ) is Err && binary(op, left, right, line)->Err_0 is TypeError && binary(
            op,
            left,
            right,
            line,
        )->Err_0->TypeError_line == line,
{
}

/// Whether a name is the name of a builtin.
pub open spec fn is_builtin(name: Seq<char>) -> bool {
    name == "aura"@ || name == "yap"@ || name == "attemptrizz"@
}

/// A call without a receiver of a name that is no builtin and that no
/// function declares ends all work with the error for an unknown function.
pub proof fn undeclared_call_is_unknown(s: InterpreterView, name: Seq<char>, args: Seq<ExprView>)
    requires
        !is_builtin(name),
        !s.functions.contains_key(name),
    ensures
        s.call(name, None, args) == s.fail(ErrorView::UnknownFunction { name, line: s.line }),
{
    reveal(InterpreterView::call);
}

/// Once a function is declared, a call of its name without a receiver
/// starts to run the declared body.
pub proof fn declared_call_runs_the_body(
    s: InterpreterView,
    name: Seq<char>,
    body: Seq<StmtView>,
    line: usize,
    args: Seq<ExprView>,
)
    requires
        !is_builtin(name),
    ensures
        ({
            let declared = s.execute(StmtView::Function { name, body, line });
            declared.call(name, None, args) == declared.enter(None).start_block(body)
        }),
{
    reveal(InterpreterView::call);
    reveal(InterpreterView::execute);
}

/// An import of a name that is no library ends all work with a general
/// error that names the library, and leaves the libraries as they were.
pub proof fn unknown_import_changes_no_library(s: InterpreterView, library: Seq<char>, line: usize)
    requires
        library_named(library) is None,
    ensures
        ({
            let after = s.execute(StmtView::Import { library, line });
            &&& after.focus == FocusView::Finished(
                Err(
                    ErrorView::GeneralError {
                        line,
                        message: "Unknown library gyatt import: "@ + library,
                    },
                ),
            )
            &&& after.libs == s.libs
        }),
{
    reveal(InterpreterView::execute);
}

/// Of two declarations of a function under one name the later one stays,
/// and neither is an error.
pub proof fn later_function_wins(
    s: InterpreterView,
    name: Seq<char>,
    first: Seq<StmtView>,
    first_line: usize,
    second: Seq<StmtView>,
    second_line: usize,
)
    ensures
        ({
            let once = s.execute(StmtView::Function { name, body: first, line: first_line });
            let twice = once.execute(StmtView::Function { name, body: second, line: second_line });
            &&& once.focus == FocusView::Signal(ControlFlowView::Proceed)
            &&& twice.focus == FocusView::Signal(ControlFlowView::Proceed)
            &&& twice.functions == s.functions.insert(name, second)
        }),
{
    reveal(InterpreterView::execute);
}

/// Of two declarations of a class under one name the later one stays, and
/// neither is an error.
pub proof fn later_class_wins(
    s: InterpreterView,
    name: Seq<char>,
    first: Seq<StmtView>,
    first_line: usize,
    second: Seq<StmtView>,
    second_line: usize,
)
    ensures
        ({
            let once = s.execute(StmtView::Class { name, functions: first, line: first_line });
            let twice = once.execute(
                StmtView::Class { name, functions: second, line: second_line },
            );
            &&& once.focus == FocusView::Signal(ControlFlowView::Proceed)
            &&& twice.focus == FocusView::Signal(ControlFlowView::Proceed)
            &&& twice.classes == s.classes.insert(name, methods_of(second))
        }),
{
    reveal(InterpreterView::execute);
}


/// A sequence of statements that gets a signal other than the one to go on
/// hands it on unchanged, and runs no further statement.
pub proof fn block_forwards_a_signal(
    s: InterpreterView,
    statements: Seq<StmtView>,
    next: usize,
    signal: ControlFlowView,
)
    requires
        !(signal is Proceed),
    ensures
        s.push(FrameView::Block { statements, next }).deliver_signal(signal) == s.signal(signal),
{
    reveal(InterpreterView::deliver_signal);
    assert(s.push(FrameView::Block { statements, next }).pop().frames =~= s.frames);
}

/// A loop whose body ends a pass, by running to its end or by the signal
/// to continue, tests its condition again; a return leaves the loop.
pub proof fn loop_tests_again_after_a_pass(
    s: InterpreterView,
    condition: ExprView,
    body: Seq<StmtView>,
    line: usize,
    value: ExprView,
)
    ensures
        ({
            let looping = s.push(FrameView::Loop { condition, body, line });
            &&& looping.deliver_signal(ControlFlowView::Proceed) == looping.at_line(line).look(
                FocusView::Expression(condition),
            )
            &&& looping.deliver_signal(ControlFlowView::Continue) == looping.at_line(line).look(
                FocusView::Expression(condition),
            )
            &&& looping.deliver_signal(ControlFlowView::Return(value)) == s.signal(
                ControlFlowView::Return(value),
            )
        }),
{
    reveal(InterpreterView::deliver_signal);
    assert(s.push(FrameView::Loop { condition, body, line }).pop().frames =~= s.frames);
}

/// A loop runs its body when its condition gives any value but `false`,
/// and ends when the condition gives `false`.
pub proof fn loop_runs_while_its_condition_holds(
    s: InterpreterView,
    condition: ExprView,
    body: Seq<StmtView>,
    line: usize,
    value: ExprView,
)
    ensures
        ({
            let looping = s.push(FrameView::Loop { condition, body, line });
            looping.deliver_value(value) == (if value == ExprView::Boolean(false) {
                s.signal(ControlFlowView::Proceed)
            } else {
                looping.start_block(body)
            })
        }),
{
    reveal(InterpreterView::deliver_value);
    assert(s.push(FrameView::Loop { condition, body, line }).pop().frames =~= s.frames);
}

/// A call ends at its boundary: a return gives the returned value, any
/// other end gives zero, and the caller's instance and line are back.
pub proof fn call_ends_at_its_boundary(
    s: InterpreterView,
    instance: Option<usize>,
    line: usize,
    signal: ControlFlowView,
)
    ensures
        s.push(FrameView::CallBoundary { instance, line }).deliver_signal(signal)
            == (InterpreterView { current_instance: instance, line, ..s }).give(
            match signal {
                ControlFlowView::Return(v) => v,
                _ => ExprView::Number(0),
            },
        ),
{
    reveal(InterpreterView::deliver_signal);
    assert(s.push(FrameView::CallBoundary { instance, line }).pop().frames =~= s.frames);
}


/// The decimal digits of a number are digits, and write the number.
pub proof fn digits_write_the_number(n: nat)
    ensures
        digits_of(n).len() >= 1,
        all_digits(digits_of(n)),
        digits_value(digits_of(n)) == n,
    decreases n,
{
    reveal_with_fuel(digits_value, 2);
    if n < 10 {
    } else {
        digits_write_the_number(n / 10);
        let front = digits_of(n / 10);
        let last = digit_char(n % 10);
        assert(front.push(last).drop_last() =~= front);
        assert forall|i: int| 0 <= i < digits_of(n).len() implies is_digit(
            #[trigger] digits_of(n)[i],
        ) by {
            if i < front.len() {
            }
        }
    }
}

/// The decimal text of an integer reads back as that integer.
pub proof fn integer_text_reads_back(n: i64)
    ensures
        integer_of(integer_text(n as int)) == Some(n),
{
    if n < 0 {
        let digits = digits_of((-n) as nat);
        digits_write_the_number((-n) as nat);
        let text = integer_text(n as int);
        assert(text.subrange(1, text.len() as int) =~= digits);
    } else {
        digits_write_the_number(n as nat);
    }
}


/// After the blanks comes the end of the input, or a character that is no
/// whitespace and that starts no comment.
pub proof fn blanks_end_before_a_token(s: LexerView)
    ensures
        ({
            let rest = s.after_blanks();
            rest.peek() is Some ==> !is_whitespace(rest.peek()->Some_0) && !(rest.peek()
                == Some('-') && rest.peek_next() == Some('-'))
        }),
    decreases s.remaining(),
{
    match s.peek() {
        Some(c) => {
            if is_whitespace(c) {
                blanks_end_before_a_token(s.advance());
            } else if c == '-' && s.peek_next() == Some('-') {
                let rest = s.advance().advance().after_comment();
                lemma_after_comment(s.advance().advance());
                blanks_end_before_a_token(rest);
            }
        },
        None => {},
    }
}

/// The text of a string literal holds no quote, and the literal ends just
/// after its text and its closing quote, if it has one.
pub proof fn string_literal_ends_at_the_first_quote(s: LexerView)
    requires
        s.position <= s.input.len(),
    ensures
        forall|i: int| 0 <= i < s.string_text().len() ==> #[trigger] s.string_text()[i] != '"',
        s.string_text() == s.input.subrange(
            s.position as int,
            s.position as int + s.string_text().len(),
        ),
        s.after_string().position == (if s.position + s.string_text().len() < s.input.len() {
            s.position + s.string_text().len() + 1
        } else {
            s.position + s.string_text().len()
        }),
        s.position + s.string_text().len() < s.input.len() ==> s.input[s.position as int
            + s.string_text().len()] == '"',
        s.position + s.string_text().len() <= s.input.len(),
    decreases s.remaining(),
{
    if s.position < s.input.len() && s.input[s.position as int] != '"' {
        string_literal_ends_at_the_first_quote(s.advance());
    } else {
    }
}

/// A word ends inside the input: every character up to its end may
/// continue an identifier, and the character at its end may not.
pub proof fn word_ends_at_the_first_other_character(input: Seq<char>, position: nat)
    requires
        position <= input.len(),
    ensures
        position <= word_end(input, position) <= input.len(),
        forall|i: int|
            position <= i < word_end(input, position) ==> is_word_char(#[trigger] input[i]),
        word_end(input, position) < input.len() ==> !is_word_char(
            input[word_end(input, position) as int],
        ),
    decreases input.len() - position,
{
    if position < input.len() && is_word_char(input[position as int]) {
        word_ends_at_the_first_other_character(input, position + 1);
    }
}

/// Reading a token changes neither the input nor, downwards, the line.
pub proof fn tokens_keep_the_input(s: LexerView)
    requires
        s.position <= s.input.len(),
    ensures
        s.next_token().1.input == s.input,
        s.next_token().1.line >= s.line,
        s.position <= s.next_token().1.position <= s.input.len(),
{
    reveal(LexerView::next_token);
    lemma_blanks_keep_the_input(s);
    let start = s.after_blanks();
    if start.peek() is Some {
        let rest = start.advance();
        lemma_string_keeps_the_input(rest);
        word_ends_at_the_first_other_character(rest.input, rest.position);
        crate::lexer::lemma_digits_end(rest.input, rest.position);
    }
}

/// Skipping a comment changes neither the input nor, downwards, the line.
proof fn lemma_comment_keeps_the_input(s: LexerView)
    requires
        s.position <= s.input.len(),
    ensures
        s.after_comment().input == s.input,
        s.after_comment().line >= s.line,
        s.position <= s.after_comment().position <= s.input.len(),
    decreases s.remaining(),
{
    if s.position < s.input.len() && s.input[s.position as int] != '\n' {
        lemma_comment_keeps_the_input(s.advance());
    }
}

/// Skipping blanks changes neither the input nor, downwards, the line.
proof fn lemma_blanks_keep_the_input(s: LexerView)
    requires
        s.position <= s.input.len(),
    ensures
        s.after_blanks().input == s.input,
        s.after_blanks().line >= s.line,
        s.position <= s.after_blanks().position <= s.input.len(),
    decreases s.remaining(),
{
    match s.peek() {
        Some(c) => {
            if is_whitespace(c) {
                lemma_blanks_keep_the_input(s.advance());
            } else if c == '-' && s.peek_next() == Some('-') {
                let rest = s.advance().advance().after_comment();
                lemma_comment_keeps_the_input(s.advance().advance());
                if rest.remaining() < s.remaining() {
                    lemma_blanks_keep_the_input(rest);
                }
            }
        },
        None => {},
    }
}

/// Reading a string literal changes neither the input nor, downwards, the
/// line.
proof fn lemma_string_keeps_the_input(s: LexerView)
    requires
        s.position <= s.input.len(),
    ensures
        s.after_string().input == s.input,
        s.after_string().line >= s.line,
        s.position <= s.after_string().position <= s.input.len(),
    decreases s.remaining(),
{
    if s.position < s.input.len() && s.input[s.position as int] != '"' {
        lemma_string_keeps_the_input(s.advance());
    }
}


/// A program goes on with its next statement whatever signal the statement
/// before gave: a return or a continue at the top level ends nothing.
pub proof fn program_runs_every_statement(
    s: InterpreterView,
    statements: Seq<StmtView>,
    next: usize,
    signal: ControlFlowView,
)
    requires
        next < statements.len(),
    ensures
        s.push(FrameView::Program { statements, next }).deliver_signal(signal) == s.push(
            FrameView::Program { statements, next: (next + 1) as usize },
        ).look(FocusView::Statement(statements[next as int])),
{
    reveal(InterpreterView::deliver_signal);
    assert(s.push(FrameView::Program { statements, next }).pop().frames =~= s.frames);
}

/// In a text that holds digits only from `from` on, a run of digits that
/// starts there or later ends at the end of the text.
proof fn digits_run_to_the_end(input: Seq<char>, from: nat, position: nat)
    requires
        from <= position <= input.len(),
        forall|i: int| from <= i < input.len() ==> is_digit(#[trigger] input[i]),
    ensures
        crate::lexer::digits_end(input, position) == input.len(),
    decreases input.len() - position,
{
    if position < input.len() {
        digits_run_to_the_end(input, from, position + 1);
    }
}

/// Where nothing but digits is left of the input, and they write a number
/// that fits in 64 signed bits, the next token is that number, and the
/// input is at its end after it.
pub proof fn digits_are_a_number_token(s: LexerView)
    requires
        s.position < s.input.len(),
        forall|i: int| s.position <= i < s.input.len() ==> is_digit(#[trigger] s.input[i]),
        digits_value(s.input.subrange(s.position as int, s.input.len() as int)) <= i64::MAX,
    ensures
        s.next_token() == (
            Ok::<TokenView, ErrorView>(
                TokenView::Number(
                    digits_value(s.input.subrange(s.position as int, s.input.len() as int)) as i64,
                ),
            ),
            s.at(s.input.len()),
        ),
{
    reveal(LexerView::next_token);
    digits_run_to_the_end(s.input, s.position, s.position + 1);
}

/// At the end of the input the next token is the end of the input, and
/// nothing changes.
pub proof fn end_of_input_is_a_token(s: LexerView)
    requires
        s.position >= s.input.len(),
    ensures
        s.next_token() == (Ok::<TokenView, ErrorView>(TokenView::EOF), s),
{
    reveal(LexerView::next_token);
}

/// The state of a parser that was made on a lexer in the state `lexer`,
/// where the first token could be read.
pub open spec fn parser_on(lexer: LexerView) -> ParserView {
    ParserView { lexer: lexer.next_token().1, current: lexer.next_token().0->Ok_0 }
}

/// The source text that is the decimal digits of a number that fits in 64
/// signed bits, and nothing else, parses to that number.
pub proof fn source_of_a_number_parses_to_it(n: nat)
    requires
        n <= i64::MAX,
    ensures
        ({
            let start = LexerView { input: digits_of(n), position: 0, line: 1 };
            let end = LexerView { input: digits_of(n), position: digits_of(n).len(), line: 1 };
            &&& start.next_token().0 is Ok
            &&& parser_on(start).expression() == (
                Ok::<ExprView, ErrorView>(ExprView::Number(n as i64)),
                ParserView { lexer: end, current: TokenView::EOF },
            )
        }),
{
    let input = digits_of(n);
    let start = LexerView { input, position: 0, line: 1 };
    let end = LexerView { input, position: input.len(), line: 1 };
    digits_write_the_number(n);
    assert(input.subrange(0, input.len() as int) =~= input);
    digits_are_a_number_token(start);
    end_of_input_is_a_token(end);
    number_literal_is_expression(parser_on(start), n as i64);
}

/// The source text that is a minus sign and the decimal digits of a number
/// that fits in 64 signed bits parses to the negated number.
pub proof fn source_of_a_negative_number_parses_to_it(n: nat)
    requires
        n <= i64::MAX,
    ensures
        ({
            let input = seq!['-'] + digits_of(n);
            let start = LexerView { input, position: 0, line: 1 };
            let end = LexerView { input, position: input.len(), line: 1 };
            &&& start.next_token().0 is Ok
            &&& parser_on(start).expression() == (
                Ok::<ExprView, ErrorView>(ExprView::Number((-n) as i64)),
                ParserView { lexer: end, current: TokenView::EOF },
            )
        }),
{
    broadcast use lemma_advance;

    let input = seq!['-'] + digits_of(n);
    let start = LexerView { input, position: 0, line: 1 };
    let after_sign = LexerView { input, position: 1, line: 1 };
    let end = LexerView { input, position: input.len(), line: 1 };
    digits_write_the_number(n);
    assert(input.subrange(1, input.len() as int) =~= digits_of(n));
    assert forall|i: int| 1 <= i < input.len() implies is_digit(#[trigger] input[i]) by {
    }
    assert(start.next_token() == (Ok::<TokenView, ErrorView>(TokenView::Minus), after_sign)) by {
        reveal(LexerView::next_token);
    }
    digits_are_a_number_token(after_sign);
    end_of_input_is_a_token(end);
    let p = parser_on(start);
    negative_literal_is_operand(p, n as i64);
}


/// The source text `- -` before the digits of a number is refused: the
/// second minus sign is no number literal.
pub proof fn source_with_a_doubled_minus_is_refused(n: nat)
    ensures
        ({
            let start = LexerView {
                input: seq!['-', ' ', '-'] + digits_of(n),
                position: 0,
                line: 1,
            };
            &&& start.next_token().0 is Ok
            &&& parser_on(start).expression().0 == Err::<ExprView, ErrorView>(
                ErrorView::GeneralError {
                    line: 1,
                    message: "Expected a number after '-', found "@ + token_debug(TokenView::Minus),
                },
            )
        }),
{
    broadcast use lemma_advance;

    let input = seq!['-', ' ', '-'] + digits_of(n);
    let start = LexerView { input, position: 0, line: 1 };
    let after_first = LexerView { input, position: 1, line: 1 };
    let at_second = LexerView { input, position: 2, line: 1 };
    let after_second = LexerView { input, position: 3, line: 1 };
    digits_write_the_number(n);
    assert(start.next_token() == (Ok::<TokenView, ErrorView>(TokenView::Minus), after_first)) by {
        reveal(LexerView::next_token);
    }
    assert(after_first.next_token() == (
        Ok::<TokenView, ErrorView>(TokenView::Minus),
        after_second,
    )) by {
        reveal(LexerView::next_token);
        assert(at_second.after_blanks() == at_second);
    }
    let p = parser_on(start);
    negation_needs_a_number_literal(p);
}

} // verus!
