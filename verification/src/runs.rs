use vstd::prelude::*;
use crate::ast::{ExprView, StmtView};
use crate::error::ErrorView;
use crate::machine::{ControlFlowView, FocusView, FrameView};
use crate::semantics::{binary, call_value, fits, quotient, truthy, InterpreterView};
use crate::theorems::{integer_operators, is_builtin, is_literal, string_operators};
use crate::token::TokenView;

verus! {

/// Any stack of waiting work. The laws of this module hold under every
/// stack: an evaluation never looks below the frames that it pushed.
pub open spec fn under(frames: Seq<FrameView>) -> bool {
    true
}

impl InterpreterView {
    /// The state with the tables of `self` and the waiting work `frames`.
    pub open spec fn on(self, frames: Seq<FrameView>) -> InterpreterView {
        InterpreterView { frames, ..self }
    }

    /// The state inside a call: `instance` is the current instance.
    pub open spec fn inside(self, instance: Option<usize>) -> InterpreterView {
        InterpreterView { current_instance: instance, ..self }
    }

    /// The state after a call that started in `caller`: the caller's
    /// instance and line are back.
    pub open spec fn back_in(self, caller: InterpreterView) -> InterpreterView {
        InterpreterView { current_instance: caller.current_instance, line: caller.line, ..self }
    }
}

/// From the tables `s`, the expression `e` is evaluated in `steps` steps: it
/// gives the value `v` to whatever waits, and leaves the tables `t`.
pub open spec fn evaluates(
    s: InterpreterView,
    e: ExprView,
    steps: nat,
    t: InterpreterView,
    v: ExprView,
) -> bool {
    forall|frames: Seq<FrameView>| #[trigger]
        under(frames) ==> s.on(frames).look(FocusView::Expression(e)).run(steps) == t.on(
            frames,
        ).give(v)
}

/// From the tables `s`, the evaluation of `e` ends all work after `steps`
/// steps with the error `error`, and leaves the tables `t`.
pub open spec fn evaluation_fails(
    s: InterpreterView,
    e: ExprView,
    steps: nat,
    t: InterpreterView,
    error: ErrorView,
) -> bool {
    forall|frames: Seq<FrameView>| #[trigger]
        under(frames) ==> s.on(frames).look(FocusView::Expression(e)).run(steps) == t.on(
            frames,
        ).fail(error)
}

/// From the tables `s`, the statement `stmt` is executed in `steps` steps:
/// it gives the signal `c` to whatever waits, and leaves the tables `t`.
pub open spec fn executes(
    s: InterpreterView,
    stmt: StmtView,
    steps: nat,
    t: InterpreterView,
    c: ControlFlowView,
) -> bool {
    forall|frames: Seq<FrameView>| #[trigger]
        under(frames) ==> s.on(frames).look(FocusView::Statement(stmt)).run(steps) == t.on(
            frames,
        ).signal(c)
}

/// From the tables `s`, the execution of `stmt` ends all work after `steps`
/// steps with the error `error`, and leaves the tables `t`.
pub open spec fn execution_fails(
    s: InterpreterView,
    stmt: StmtView,
    steps: nat,
    t: InterpreterView,
    error: ErrorView,
) -> bool {
    forall|frames: Seq<FrameView>| #[trigger]
        under(frames) ==> s.on(frames).look(FocusView::Statement(stmt)).run(steps) == t.on(
            frames,
        ).fail(error)
}

/// From the tables `s`, the statements of `statements` from the one at
/// `next` on are run in `steps` steps: the sequence gives the signal `c` to
/// whatever waits, and leaves the tables `t`.
pub open spec fn runs_block(
    s: InterpreterView,
    statements: Seq<StmtView>,
    next: usize,
    steps: nat,
    t: InterpreterView,
    c: ControlFlowView,
) -> bool {
    forall|frames: Seq<FrameView>| #[trigger]
        under(frames) ==> s.on(frames.push(FrameView::Block { statements, next })).signal(
            ControlFlowView::Proceed,
        ).run(steps) == t.on(frames).signal(c)
}

/// From the tables `s`, the statements of `statements` from the one at
/// `next` on end all work after `steps` steps with the error `error`.
pub open spec fn block_fails(
    s: InterpreterView,
    statements: Seq<StmtView>,
    next: usize,
    steps: nat,
    t: InterpreterView,
    error: ErrorView,
) -> bool {
    forall|frames: Seq<FrameView>| #[trigger]
        under(frames) ==> s.on(frames.push(FrameView::Block { statements, next })).signal(
            ControlFlowView::Proceed,
        ).run(steps) == t.on(frames).fail(error)
}

/// From the tables `s`, a loop that is about to test its condition ends
/// after `steps` steps: it gives the signal `c` to whatever waits, and
/// leaves the tables `t`.
pub open spec fn loops(
    s: InterpreterView,
    condition: ExprView,
    body: Seq<StmtView>,
    line: usize,
    steps: nat,
    t: InterpreterView,
    c: ControlFlowView,
) -> bool {
    forall|frames: Seq<FrameView>| #[trigger]
        under(frames) ==> s.on(frames.push(FrameView::Loop { condition, body, line })).look(
            FocusView::Expression(condition),
        ).run(steps) == t.on(frames).signal(c)
}

/// Steps add up: a run of `a + b` steps is a run of `a` steps and then one
/// of `b` steps.
pub proof fn lemma_run_add(s: InterpreterView, a: nat, b: nat)
    ensures
        s.run(a + b) == s.run(a).run(b),
    decreases a,
{
    if a != 0 && !s.rests() {
        lemma_run_add(s.step(), (a - 1) as nat, b);
    }
}

/// A run of one step is a step.
pub proof fn lemma_run_one(s: InterpreterView)
    ensures
        s.run(1) == (if s.rests() {
            s
        } else {
            s.step()
        }),
{
    reveal_with_fuel(InterpreterView::run, 2);
}

/// A run of `a` steps that reaches `mid`, and then a run of `b` steps.
pub proof fn lemma_run_then(s: InterpreterView, a: nat, mid: InterpreterView, b: nat)
    requires
        s.run(a) == mid,
    ensures
        s.run(a + b) == mid.run(b),
{
    lemma_run_add(s, a, b);
}

/// A literal evaluates to itself in one step and changes nothing.
pub proof fn literal_evaluates(s: InterpreterView, e: ExprView)
    requires
        is_literal(e),
    ensures
        evaluates(s, e, 1, s, e),
{
    reveal(InterpreterView::evaluate);
    assert forall|frames: Seq<FrameView>| #[trigger] under(frames) implies s.on(frames).look(
        FocusView::Expression(e),
    ).run(1) == s.on(frames).give(e) by {
        lemma_run_one(s.on(frames).look(FocusView::Expression(e)));
    }
}

/// A bound name evaluates to its value in one step and changes nothing; a
/// name that is not bound is the error for an unknown variable.
pub proof fn name_evaluates(s: InterpreterView, name: Seq<char>)
    ensures
        s.variables.contains_key(name) ==> evaluates(
            s,
            ExprView::Ident(name),
            1,
            s,
            s.variables[name],
        ),
        !s.variables.contains_key(name) ==> evaluation_fails(
            s,
            ExprView::Ident(name),
            1,
            s,
            ErrorView::UnknownVariable { name, line: s.line },
        ),
{
    reveal(InterpreterView::evaluate);
    let e = ExprView::Ident(name);
    assert forall|frames: Seq<FrameView>| #[trigger] under(frames) implies s.on(frames).look(
        FocusView::Expression(e),
    ).run(1) == (if s.variables.contains_key(name) {
        s.on(frames).give(s.variables[name])
    } else {
        s.on(frames).fail(ErrorView::UnknownVariable { name, line: s.line })
    }) by {
        lemma_run_one(s.on(frames).look(FocusView::Expression(e)));
    }
}

/// An operator between two operands: the left operand is evaluated first,
/// then the right one from the tables that the left one left, and then the
/// operator is applied to the two values, left value first, on the line of
/// the tables that the right operand left. What the operator gives is the
/// value of the whole; what it refuses ends all work.
pub proof fn operator_evaluates(
    s: InterpreterView,
    left: ExprView,
    left_steps: nat,
    t: InterpreterView,
    a: ExprView,
    op: TokenView,
    right: ExprView,
    right_steps: nat,
    u: InterpreterView,
    b: ExprView,
)
    requires
        evaluates(s, left, left_steps, t, a),
        evaluates(t, right, right_steps, u, b),
    ensures
        binary(op, a, b, u.line) is Ok ==> evaluates(
            s,
            ExprView::BinOp { left: Box::new(left), op, right: Box::new(right) },
            left_steps + right_steps + 3,
            u,
            binary(op, a, b, u.line)->Ok_0,
        ),
        binary(op, a, b, u.line) is Err ==> evaluation_fails(
            s,
            ExprView::BinOp { left: Box::new(left), op, right: Box::new(right) },
            left_steps + right_steps + 3,
            u,
            binary(op, a, b, u.line)->Err_0,
        ),
{
    reveal(InterpreterView::evaluate);
    reveal(InterpreterView::deliver_value);
    let e = ExprView::BinOp { left: Box::new(left), op, right: Box::new(right) };
    assert forall|frames: Seq<FrameView>| #[trigger] under(frames) implies s.on(frames).look(
        FocusView::Expression(e),
    ).run(left_steps + right_steps + 3) == (match binary(op, a, b, u.line) {
        Ok(r) => u.on(frames).give(r),
        Err(x) => u.on(frames).fail(x),
    }) by {
        let f1 = frames.push(FrameView::Right { op, right });
        let f2 = frames.push(FrameView::Apply { op, left: a });
        let s0 = s.on(frames).look(FocusView::Expression(e));
        let s1 = s.on(f1).look(FocusView::Expression(left));
        let s2 = t.on(f1).give(a);
        let s3 = t.on(f2).look(FocusView::Expression(right));
        let s4 = u.on(f2).give(b);
        assert(under(f1));
        assert(f1.drop_last() =~= frames);
        assert(under(f2));
        assert(f2.drop_last() =~= frames);
        lemma_run_one(s0);
        lemma_run_then(s0, 1, s1, left_steps);
        lemma_run_one(s2);
        lemma_run_then(s0, 1 + left_steps, s2, 1);
        lemma_run_then(s0, 1 + left_steps + 1, s3, right_steps);
        lemma_run_one(s4);
        lemma_run_then(s0, 1 + left_steps + 1 + right_steps, s4, 1);
    }
}

/// An operator whose left operand fails, fails with it: the right operand
/// is not evaluated.
pub proof fn operator_fails_on_the_left(
    s: InterpreterView,
    left: ExprView,
    left_steps: nat,
    t: InterpreterView,
    error: ErrorView,
    op: TokenView,
    right: ExprView,
)
    requires
        evaluation_fails(s, left, left_steps, t, error),
    ensures
        evaluation_fails(
            s,
            ExprView::BinOp { left: Box::new(left), op, right: Box::new(right) },
            left_steps + 1,
            t,
            error,
        ),
{
    reveal(InterpreterView::evaluate);
    let e = ExprView::BinOp { left: Box::new(left), op, right: Box::new(right) };
    assert forall|frames: Seq<FrameView>| #[trigger] under(frames) implies s.on(frames).look(
        FocusView::Expression(e),
    ).run(left_steps + 1) == t.on(frames).fail(error) by {
        let f1 = frames.push(FrameView::Right { op, right });
        let s0 = s.on(frames).look(FocusView::Expression(e));
        let s1 = s.on(f1).look(FocusView::Expression(left));
        assert(under(f1));
        lemma_run_one(s0);
        lemma_run_then(s0, 1, s1, left_steps);
    }
}

/// An operator whose right operand fails, fails with it, after the left
/// operand was evaluated.
pub proof fn operator_fails_on_the_right(
    s: InterpreterView,
    left: ExprView,
    left_steps: nat,
    t: InterpreterView,
    a: ExprView,
    op: TokenView,
    right: ExprView,
    right_steps: nat,
    u: InterpreterView,
    error: ErrorView,
)
    requires
        evaluates(s, left, left_steps, t, a),
        evaluation_fails(t, right, right_steps, u, error),
    ensures
        evaluation_fails(
            s,
            ExprView::BinOp { left: Box::new(left), op, right: Box::new(right) },
            left_steps + right_steps + 2,
            u,
            error,
        ),
{
    reveal(InterpreterView::evaluate);
    reveal(InterpreterView::deliver_value);
    let e = ExprView::BinOp { left: Box::new(left), op, right: Box::new(right) };
    assert forall|frames: Seq<FrameView>| #[trigger] under(frames) implies s.on(frames).look(
        FocusView::Expression(e),
    ).run(left_steps + right_steps + 2) == u.on(frames).fail(error) by {
        let f1 = frames.push(FrameView::Right { op, right });
        let f2 = frames.push(FrameView::Apply { op, left: a });
        let s0 = s.on(frames).look(FocusView::Expression(e));
        let s1 = s.on(f1).look(FocusView::Expression(left));
        let s2 = t.on(f1).give(a);
        let s3 = t.on(f2).look(FocusView::Expression(right));
        assert(under(f1));
        assert(f1.drop_last() =~= frames);
        assert(under(f2));
        lemma_run_one(s0);
        lemma_run_then(s0, 1, s1, left_steps);
        lemma_run_one(s2);
        lemma_run_then(s0, 1 + left_steps, s2, 1);
        lemma_run_then(s0, 1 + left_steps + 1, s3, right_steps);
    }
}

/// Operands that evaluate to two integers `a` and `b`: the sum, the
/// difference and the product are the integers `a + b`, `a - b` and
/// `a * b` where these fit in 64 signed bits; the quotient is `a / b`
/// rounded towards zero; a division by zero is the error of that name on
/// the line of the tables that the operands left; the comparisons give
/// booleans. The tables are those that the operands left.
pub proof fn integers_compute(
    s: InterpreterView,
    left: ExprView,
    left_steps: nat,
    t: InterpreterView,
    a: i64,
    op: TokenView,
    right: ExprView,
    right_steps: nat,
    u: InterpreterView,
    b: i64,
)
    requires
        evaluates(s, left, left_steps, t, ExprView::Number(a)),
        evaluates(t, right, right_steps, u, ExprView::Number(b)),
    ensures
        ({
            let e = ExprView::BinOp { left: Box::new(left), op, right: Box::new(right) };
            let steps = left_steps + right_steps + 3;
            &&& op == TokenView::Plus && fits(a + b) ==> evaluates(
                s,
                e,
                steps,
                u,
                ExprView::Number((a + b) as i64),
            )
            &&& op == TokenView::Minus && fits(a - b) ==> evaluates(
                s,
                e,
                steps,
                u,
                ExprView::Number((a - b) as i64),
            )
            &&& op == TokenView::Star && fits(a * b) ==> evaluates(
                s,
                e,
                steps,
                u,
                ExprView::Number((a * b) as i64),
            )
            &&& op == TokenView::Slash && b != 0 && fits(quotient(a as int, b as int))
                ==> evaluates(s, e, steps, u, ExprView::Number(quotient(a as int, b as int) as i64))
            &&& op == TokenView::Slash && b == 0 ==> evaluation_fails(
                s,
                e,
                steps,
                u,
                ErrorView::DivisionByZero { line: u.line },
            )
            &&& op == TokenView::Rizz ==> evaluates(s, e, steps, u, ExprView::Boolean(a == b))
            &&& op == TokenView::GreaterThan ==> evaluates(s, e, steps, u, ExprView::Boolean(a > b))
            &&& op == TokenView::LessThan ==> evaluates(s, e, steps, u, ExprView::Boolean(a < b))
        }),
{
    operator_evaluates(
        s,
        left,
        left_steps,
        t,
        ExprView::Number(a),
        op,
        right,
        right_steps,
        u,
        ExprView::Number(b),
    );
    integer_operators(a, b, u.line);
}

/// Operands that evaluate to two strings: `+` gives the two joined, `==`
/// gives whether their characters are the same in the same order, and `-`,
/// `*`, `/`, `>` and `<` end all work with a type error on the line of the
/// tables that the operands left.
pub proof fn strings_compute(
    s: InterpreterView,
    left: ExprView,
    left_steps: nat,
    t: InterpreterView,
    a: Seq<char>,
    op: TokenView,
    right: ExprView,
    right_steps: nat,
    u: InterpreterView,
    b: Seq<char>,
)
    requires
        evaluates(s, left, left_steps, t, ExprView::StringLiteral(a)),
        evaluates(t, right, right_steps, u, ExprView::StringLiteral(b)),
    ensures
        ({
            let e = ExprView::BinOp { left: Box::new(left), op, right: Box::new(right) };
            let steps = left_steps + right_steps + 3;
            &&& op == TokenView::Plus ==> evaluates(s, e, steps, u, ExprView::StringLiteral(a + b))
            &&& op == TokenView::Rizz ==> evaluates(s, e, steps, u, ExprView::Boolean(a == b))
            &&& op == TokenView::Minus || op == TokenView::Star || op == TokenView::Slash || op
                == TokenView::GreaterThan || op == TokenView::LessThan ==> exists|error: ErrorView|
                #![auto]
                error is TypeError && error->TypeError_line == u.line && evaluation_fails(
                    s,
                    e,
                    steps,
                    u,
                    error,
                )
        }),
{
    operator_evaluates(
        s,
        left,
        left_steps,
        t,
        ExprView::StringLiteral(a),
        op,
        right,
        right_steps,
        u,
        ExprView::StringLiteral(b),
    );
    string_operators(ExprView::StringLiteral(a), op, ExprView::StringLiteral(b), u.line);
    if op == TokenView::Minus || op == TokenView::Star || op == TokenView::Slash || op
        == TokenView::GreaterThan || op == TokenView::LessThan {
    }
}


/// A return evaluates its value on its own line and gives the signal to
/// return that value.
pub proof fn return_executes(
    s: InterpreterView,
    value: ExprView,
    line: usize,
    steps: nat,
    t: InterpreterView,
    v: ExprView,
)
    requires
        evaluates(s.at_line(line), value, steps, t, v),
    ensures
        executes(s, StmtView::Return { value, line }, steps + 2, t, ControlFlowView::Return(v)),
{
    reveal(InterpreterView::execute);
    reveal(InterpreterView::deliver_value);
    let stmt = StmtView::Return { value, line };
    assert forall|frames: Seq<FrameView>| #[trigger] under(frames) implies s.on(frames).look(
        FocusView::Statement(stmt),
    ).run(steps + 2) == t.on(frames).signal(ControlFlowView::Return(v)) by {
        let f1 = frames.push(FrameView::ReturnValue);
        let s0 = s.on(frames).look(FocusView::Statement(stmt));
        let s1 = s.at_line(line).on(f1).look(FocusView::Expression(value));
        let s2 = t.on(f1).give(v);
        assert(under(f1));
        assert(f1.drop_last() =~= frames);
        lemma_run_one(s0);
        lemma_run_then(s0, 1, s1, steps);
        lemma_run_one(s2);
        lemma_run_then(s0, 1 + steps, s2, 1);
    }
}

/// An assignment evaluates its value on its own line, binds the name to
/// it, and gives the signal to go on.
pub proof fn assignment_executes(
    s: InterpreterView,
    name: Seq<char>,
    object: Option<Box<ExprView>>,
    value: ExprView,
    line: usize,
    steps: nat,
    t: InterpreterView,
    v: ExprView,
)
    requires
        evaluates(s.at_line(line), value, steps, t, v),
    ensures
        executes(
            s,
            StmtView::VariableAssign { name, object, value, line },
            steps + 2,
            t.bind(name, v),
            ControlFlowView::Proceed,
        ),
{
    reveal(InterpreterView::execute);
    reveal(InterpreterView::deliver_value);
    let stmt = StmtView::VariableAssign { name, object, value, line };
    assert forall|frames: Seq<FrameView>| #[trigger] under(frames) implies s.on(frames).look(
        FocusView::Statement(stmt),
    ).run(steps + 2) == t.bind(name, v).on(frames).signal(ControlFlowView::Proceed) by {
        let f1 = frames.push(FrameView::Bind { name });
        let s0 = s.on(frames).look(FocusView::Statement(stmt));
        let s1 = s.at_line(line).on(f1).look(FocusView::Expression(value));
        let s2 = t.on(f1).give(v);
        assert(under(f1));
        assert(f1.drop_last() =~= frames);
        lemma_run_one(s0);
        lemma_run_then(s0, 1, s1, steps);
        lemma_run_one(s2);
        lemma_run_then(s0, 1 + steps, s2, 1);
    }
}

/// An expression statement evaluates its value on its own line, drops it,
/// and gives the signal to go on.
pub proof fn expression_statement_executes(
    s: InterpreterView,
    value: ExprView,
    line: usize,
    steps: nat,
    t: InterpreterView,
    v: ExprView,
)
    requires
        evaluates(s.at_line(line), value, steps, t, v),
    ensures
        executes(s, StmtView::Expression { value, line }, steps + 2, t, ControlFlowView::Proceed),
{
    reveal(InterpreterView::execute);
    reveal(InterpreterView::deliver_value);
    let stmt = StmtView::Expression { value, line };
    assert forall|frames: Seq<FrameView>| #[trigger] under(frames) implies s.on(frames).look(
        FocusView::Statement(stmt),
    ).run(steps + 2) == t.on(frames).signal(ControlFlowView::Proceed) by {
        let f1 = frames.push(FrameView::Discard);
        let s0 = s.on(frames).look(FocusView::Statement(stmt));
        let s1 = s.at_line(line).on(f1).look(FocusView::Expression(value));
        let s2 = t.on(f1).give(v);
        assert(under(f1));
        assert(f1.drop_last() =~= frames);
        lemma_run_one(s0);
        lemma_run_then(s0, 1, s1, steps);
        lemma_run_one(s2);
        lemma_run_then(s0, 1 + steps, s2, 1);
    }
}

/// A return, an assignment or an expression statement whose value fails,
/// fails with it.
pub proof fn statement_fails_with_its_value(
    s: InterpreterView,
    stmt: StmtView,
    steps: nat,
    t: InterpreterView,
    error: ErrorView,
)
    requires
        match stmt {
            StmtView::Return { value, line } => evaluation_fails(
                s.at_line(line),
                value,
                steps,
                t,
                error,
            ),
            StmtView::VariableAssign { value, line, .. } => evaluation_fails(
                s.at_line(line),
                value,
                steps,
                t,
                error,
            ),
            StmtView::Expression { value, line } => evaluation_fails(
                s.at_line(line),
                value,
                steps,
                t,
                error,
            ),
            _ => false,
        },
    ensures
        execution_fails(s, stmt, steps + 1, t, error),
{
    reveal(InterpreterView::execute);
    assert forall|frames: Seq<FrameView>| #[trigger] under(frames) implies s.on(frames).look(
        FocusView::Statement(stmt),
    ).run(steps + 1) == t.on(frames).fail(error) by {
        let s0 = s.on(frames).look(FocusView::Statement(stmt));
        let s1 = s0.step();
        assert(under(s1.frames));
        match stmt {
            StmtView::Return { value, line } => {
            },
            StmtView::VariableAssign { value, line, .. } => {
            },
            StmtView::Expression { value, line } => {
            },
            _ => {},
        }
        lemma_run_one(s0);
        lemma_run_then(s0, 1, s1, steps);
    }
}

/// A sequence of statements that has run its last statement gives the
/// signal to go on.
pub proof fn block_ends(s: InterpreterView, statements: Seq<StmtView>, next: usize)
    requires
        next >= statements.len(),
    ensures
        runs_block(s, statements, next, 1, s, ControlFlowView::Proceed),
{
    reveal(InterpreterView::deliver_signal);
    assert forall|frames: Seq<FrameView>| #[trigger] under(frames) implies s.on(
        frames.push(FrameView::Block { statements, next }),
    ).signal(ControlFlowView::Proceed).run(1) == s.on(frames).signal(ControlFlowView::Proceed) by {
        let f0 = frames.push(FrameView::Block { statements, next });
        assert(f0.drop_last() =~= frames);
        lemma_run_one(s.on(f0).signal(ControlFlowView::Proceed));
    }
}

/// A sequence of statements runs its next statement, and goes on with the
/// rest where that statement gives the signal to go on.
pub proof fn block_goes_on(
    s: InterpreterView,
    statements: Seq<StmtView>,
    next: usize,
    first_steps: nat,
    t: InterpreterView,
    rest_steps: nat,
    u: InterpreterView,
    c: ControlFlowView,
)
    requires
        next < statements.len(),
        executes(s, statements[next as int], first_steps, t, ControlFlowView::Proceed),
        runs_block(t, statements, (next + 1) as usize, rest_steps, u, c),
    ensures
        runs_block(s, statements, next, 1 + first_steps + rest_steps, u, c),
{
    reveal(InterpreterView::deliver_signal);
    assert forall|frames: Seq<FrameView>| #[trigger] under(frames) implies s.on(
        frames.push(FrameView::Block { statements, next }),
    ).signal(ControlFlowView::Proceed).run(1 + first_steps + rest_steps) == u.on(frames).signal(
        c,
    ) by {
        let f0 = frames.push(FrameView::Block { statements, next });
        let f1 = frames.push(FrameView::Block { statements, next: (next + 1) as usize });
        let s0 = s.on(f0).signal(ControlFlowView::Proceed);
        let s1 = s.on(f1).look(FocusView::Statement(statements[next as int]));
        let s2 = t.on(f1).signal(ControlFlowView::Proceed);
        assert(f0.drop_last() =~= frames);
        assert(under(f1));
        lemma_run_one(s0);
        lemma_run_then(s0, 1, s1, first_steps);
        lemma_run_then(s0, 1 + first_steps, s2, rest_steps);
    }
}

/// A sequence of statements stops at the first statement that gives a
/// signal other than the one to go on, and hands that signal on: no
/// statement after it runs.
pub proof fn block_stops(
    s: InterpreterView,
    statements: Seq<StmtView>,
    next: usize,
    steps: nat,
    t: InterpreterView,
    c: ControlFlowView,
)
    requires
        next < statements.len(),
        executes(s, statements[next as int], steps, t, c),
        !(c is Proceed),
    ensures
        runs_block(s, statements, next, steps + 2, t, c),
{
    reveal(InterpreterView::deliver_signal);
    assert forall|frames: Seq<FrameView>| #[trigger] under(frames) implies s.on(
        frames.push(FrameView::Block { statements, next }),
    ).signal(ControlFlowView::Proceed).run(steps + 2) == t.on(frames).signal(c) by {
        let f0 = frames.push(FrameView::Block { statements, next });
        let f1 = frames.push(FrameView::Block { statements, next: (next + 1) as usize });
        let s0 = s.on(f0).signal(ControlFlowView::Proceed);
        let s1 = s.on(f1).look(FocusView::Statement(statements[next as int]));
        let s2 = t.on(f1).signal(c);
        assert(f0.drop_last() =~= frames);
        assert(under(f1));
        assert(f1.drop_last() =~= frames);
        lemma_run_one(s0);
        lemma_run_then(s0, 1, s1, steps);
        lemma_run_one(s2);
        lemma_run_then(s0, 1 + steps, s2, 1);
    }
}

/// A sequence of statements fails with the first statement that fails.
pub proof fn block_fails_with_its_statement(
    s: InterpreterView,
    statements: Seq<StmtView>,
    next: usize,
    steps: nat,
    t: InterpreterView,
    error: ErrorView,
)
    requires
        next < statements.len(),
        execution_fails(s, statements[next as int], steps, t, error),
    ensures
        block_fails(s, statements, next, steps + 1, t, error),
{
    reveal(InterpreterView::deliver_signal);
    assert forall|frames: Seq<FrameView>| #[trigger] under(frames) implies s.on(
        frames.push(FrameView::Block { statements, next }),
    ).signal(ControlFlowView::Proceed).run(steps + 1) == t.on(frames).fail(error) by {
        let f0 = frames.push(FrameView::Block { statements, next });
        let f1 = frames.push(FrameView::Block { statements, next: (next + 1) as usize });
        let s0 = s.on(f0).signal(ControlFlowView::Proceed);
        let s1 = s.on(f1).look(FocusView::Statement(statements[next as int]));
        assert(f0.drop_last() =~= frames);
        assert(under(f1));
        lemma_run_one(s0);
        lemma_run_then(s0, 1, s1, steps);
    }
}

/// A sequence of statements whose next statement gives the signal to go
/// on fails where the rest fails.
pub proof fn block_fails_later(
    s: InterpreterView,
    statements: Seq<StmtView>,
    next: usize,
    first_steps: nat,
    t: InterpreterView,
    rest_steps: nat,
    u: InterpreterView,
    error: ErrorView,
)
    requires
        next < statements.len(),
        executes(s, statements[next as int], first_steps, t, ControlFlowView::Proceed),
        block_fails(t, statements, (next + 1) as usize, rest_steps, u, error),
    ensures
        block_fails(s, statements, next, 1 + first_steps + rest_steps, u, error),
{
    reveal(InterpreterView::deliver_signal);
    assert forall|frames: Seq<FrameView>| #[trigger] under(frames) implies s.on(
        frames.push(FrameView::Block { statements, next }),
    ).signal(ControlFlowView::Proceed).run(1 + first_steps + rest_steps) == u.on(frames).fail(
        error,
    ) by {
        let f0 = frames.push(FrameView::Block { statements, next });
        let f1 = frames.push(FrameView::Block { statements, next: (next + 1) as usize });
        let s0 = s.on(f0).signal(ControlFlowView::Proceed);
        let s1 = s.on(f1).look(FocusView::Statement(statements[next as int]));
        let s2 = t.on(f1).signal(ControlFlowView::Proceed);
        assert(f0.drop_last() =~= frames);
        assert(under(f1));
        lemma_run_one(s0);
        lemma_run_then(s0, 1, s1, first_steps);
        lemma_run_then(s0, 1 + first_steps, s2, rest_steps);
    }
}

/// The call, without a receiver, of the function `name`.
pub open spec fn call_of(name: Seq<char>, args: Seq<ExprView>) -> ExprView {
    ExprView::FunctionCall { name, object: None, args }
}

/// A call of a declared function runs the statements of its body in order,
/// with no current instance. Its value is the value of the first return
/// that the body reaches, from however deep inside its blocks and loops,
/// and zero if the body ends without one; the caller's instance and line
/// are back afterwards.
pub proof fn call_returns(
    s: InterpreterView,
    name: Seq<char>,
    args: Seq<ExprView>,
    steps: nat,
    t: InterpreterView,
    c: ControlFlowView,
)
    requires
        !is_builtin(name),
        s.functions.contains_key(name),
        runs_block(s.inside(None), s.functions[name], 0, steps, t, c),
    ensures
        evaluates(s, call_of(name, args), steps + 2, t.back_in(s), call_value(c)),
{
    reveal(InterpreterView::evaluate);
    reveal(InterpreterView::call);
    reveal(InterpreterView::deliver_signal);
    let body = s.functions[name];
    assert forall|frames: Seq<FrameView>| #[trigger] under(frames) implies s.on(frames).look(
        FocusView::Expression(call_of(name, args)),
    ).run(steps + 2) == t.back_in(s).on(frames).give(call_value(c)) by {
        let f1 = frames.push(
            FrameView::CallBoundary { instance: s.current_instance, line: s.line },
        );
        let f2 = f1.push(FrameView::Block { statements: body, next: 0 });
        let s0 = s.on(frames).look(FocusView::Expression(call_of(name, args)));
        let s1 = s.inside(None).on(f2).signal(ControlFlowView::Proceed);
        let s2 = t.on(f1).signal(c);
        assert(under(f1));
        assert(f1.drop_last() =~= frames);
        lemma_run_one(s0);
        lemma_run_then(s0, 1, s1, steps);
        lemma_run_one(s2);
        lemma_run_then(s0, 1 + steps, s2, 1);
    }
}

/// A call of a declared function fails with the first statement of its
/// body that fails.
pub proof fn call_fails(
    s: InterpreterView,
    name: Seq<char>,
    args: Seq<ExprView>,
    steps: nat,
    t: InterpreterView,
    error: ErrorView,
)
    requires
        !is_builtin(name),
        s.functions.contains_key(name),
        block_fails(s.inside(None), s.functions[name], 0, steps, t, error),
    ensures
        evaluation_fails(s, call_of(name, args), steps + 1, t, error),
{
    reveal(InterpreterView::evaluate);
    reveal(InterpreterView::call);
    let body = s.functions[name];
    assert forall|frames: Seq<FrameView>| #[trigger] under(frames) implies s.on(frames).look(
        FocusView::Expression(call_of(name, args)),
    ).run(steps + 1) == t.on(frames).fail(error) by {
        let f1 = frames.push(
            FrameView::CallBoundary { instance: s.current_instance, line: s.line },
        );
        let f2 = f1.push(FrameView::Block { statements: body, next: 0 });
        let s0 = s.on(frames).look(FocusView::Expression(call_of(name, args)));
        let s1 = s.inside(None).on(f2).signal(ControlFlowView::Proceed);
        assert(under(f1));
        lemma_run_one(s0);
        lemma_run_then(s0, 1, s1, steps);
    }
}

/// A call of a name that is no builtin and that no function declares ends
/// all work with the error for an unknown function on the current line, and
/// changes no table.
pub proof fn call_of_unknown_fails(s: InterpreterView, name: Seq<char>, args: Seq<ExprView>)
    requires
        !is_builtin(name),
        !s.functions.contains_key(name),
    ensures
        evaluation_fails(
            s,
            call_of(name, args),
            1,
            s,
            ErrorView::UnknownFunction { name, line: s.line },
        ),
{
    reveal(InterpreterView::evaluate);
    reveal(InterpreterView::call);
    assert forall|frames: Seq<FrameView>| #[trigger] under(frames) implies s.on(frames).look(
        FocusView::Expression(call_of(name, args)),
    ).run(1) == s.on(frames).fail(ErrorView::UnknownFunction { name, line: s.line }) by {
        lemma_run_one(s.on(frames).look(FocusView::Expression(call_of(name, args))));
    }
}

/// A loop whose condition gives `false` ends: no statement of its body
/// runs, and the tables are those that the condition left.
pub proof fn loop_ends(
    s: InterpreterView,
    condition: ExprView,
    body: Seq<StmtView>,
    line: usize,
    steps: nat,
    t: InterpreterView,
)
    requires
        evaluates(s, condition, steps, t, ExprView::Boolean(false)),
    ensures
        loops(s, condition, body, line, steps + 1, t, ControlFlowView::Proceed),
{
    reveal(InterpreterView::deliver_value);
    assert forall|frames: Seq<FrameView>| #[trigger] under(frames) implies s.on(
        frames.push(FrameView::Loop { condition, body, line }),
    ).look(FocusView::Expression(condition)).run(steps + 1) == t.on(frames).signal(
        ControlFlowView::Proceed,
    ) by {
        let f1 = frames.push(FrameView::Loop { condition, body, line });
        let s0 = s.on(f1).look(FocusView::Expression(condition));
        let s1 = t.on(f1).give(ExprView::Boolean(false));
        assert(under(f1));
        assert(f1.drop_last() =~= frames);
        lemma_run_one(s1);
        lemma_run_then(s0, steps, s1, 1);
    }
}

/// A loop whose condition gives any value but `false` runs its body once;
/// where the body ends the pass, by running to its end or by the signal to
/// continue, the loop tests its condition again, on its own line.
pub proof fn loop_passes(
    s: InterpreterView,
    condition: ExprView,
    body: Seq<StmtView>,
    line: usize,
    test_steps: nat,
    t: InterpreterView,
    v: ExprView,
    body_steps: nat,
    u: InterpreterView,
    pass: ControlFlowView,
    rest_steps: nat,
    w: InterpreterView,
    c: ControlFlowView,
)
    requires
        evaluates(s, condition, test_steps, t, v),
        truthy(v),
        runs_block(t, body, 0, body_steps, u, pass),
        !(pass is Return),
        loops(u.at_line(line), condition, body, line, rest_steps, w, c),
    ensures
        loops(s, condition, body, line, test_steps + body_steps + rest_steps + 2, w, c),
{
    reveal(InterpreterView::deliver_value);
    reveal(InterpreterView::deliver_signal);
    assert forall|frames: Seq<FrameView>| #[trigger] under(frames) implies s.on(
        frames.push(FrameView::Loop { condition, body, line }),
    ).look(FocusView::Expression(condition)).run(test_steps + body_steps + rest_steps + 2)
        == w.on(frames).signal(c) by {
        let f1 = frames.push(FrameView::Loop { condition, body, line });
        let f2 = f1.push(FrameView::Block { statements: body, next: 0 });
        let s0 = s.on(f1).look(FocusView::Expression(condition));
        let s1 = t.on(f1).give(v);
        let s2 = t.on(f2).signal(ControlFlowView::Proceed);
        let s3 = u.on(f1).signal(pass);
        let s4 = u.at_line(line).on(f1).look(FocusView::Expression(condition));
        assert(under(f1));
        lemma_run_one(s1);
        lemma_run_then(s0, test_steps, s1, 1);
        lemma_run_then(s0, test_steps + 1, s2, body_steps);
        lemma_run_one(s3);
        lemma_run_then(s0, test_steps + 1 + body_steps, s3, 1);
        lemma_run_then(s0, test_steps + 1 + body_steps + 1, s4, rest_steps);
    }
}

/// A loop whose body gives the signal to return ends with that signal.
pub proof fn loop_returns(
    s: InterpreterView,
    condition: ExprView,
    body: Seq<StmtView>,
    line: usize,
    test_steps: nat,
    t: InterpreterView,
    v: ExprView,
    body_steps: nat,
    u: InterpreterView,
    returned: ExprView,
)
    requires
        evaluates(s, condition, test_steps, t, v),
        truthy(v),
        runs_block(t, body, 0, body_steps, u, ControlFlowView::Return(returned)),
    ensures
        loops(
            s,
            condition,
            body,
            line,
            test_steps + body_steps + 2,
            u,
            ControlFlowView::Return(returned),
        ),
{
    reveal(InterpreterView::deliver_value);
    reveal(InterpreterView::deliver_signal);
    assert forall|frames: Seq<FrameView>| #[trigger] under(frames) implies s.on(
        frames.push(FrameView::Loop { condition, body, line }),
    ).look(FocusView::Expression(condition)).run(test_steps + body_steps + 2) == u.on(
        frames,
    ).signal(ControlFlowView::Return(returned)) by {
        let f1 = frames.push(FrameView::Loop { condition, body, line });
        let f2 = f1.push(FrameView::Block { statements: body, next: 0 });
        let s0 = s.on(f1).look(FocusView::Expression(condition));
        let s1 = t.on(f1).give(v);
        let s2 = t.on(f2).signal(ControlFlowView::Proceed);
        let s3 = u.on(f1).signal(ControlFlowView::Return(returned));
        assert(under(f1));
        assert(f1.drop_last() =~= frames);
        lemma_run_one(s1);
        lemma_run_then(s0, test_steps, s1, 1);
        lemma_run_then(s0, test_steps + 1, s2, body_steps);
        lemma_run_one(s3);
        lemma_run_then(s0, test_steps + 1 + body_steps, s3, 1);
    }
}

/// A loop statement sets its line, and then loops.
pub proof fn while_executes(
    s: InterpreterView,
    condition: ExprView,
    body: Seq<StmtView>,
    line: usize,
    steps: nat,
    t: InterpreterView,
    c: ControlFlowView,
)
    requires
        loops(s.at_line(line), condition, body, line, steps, t, c),
    ensures
        executes(s, StmtView::While { condition, body, line }, steps + 1, t, c),
{
    reveal(InterpreterView::execute);
    let stmt = StmtView::While { condition, body, line };
    assert forall|frames: Seq<FrameView>| #[trigger] under(frames) implies s.on(frames).look(
        FocusView::Statement(stmt),
    ).run(steps + 1) == t.on(frames).signal(c) by {
        let f1 = frames.push(FrameView::Loop { condition, body, line });
        let s0 = s.on(frames).look(FocusView::Statement(stmt));
        let s1 = s.at_line(line).on(f1).look(FocusView::Expression(condition));
        lemma_run_one(s0);
        lemma_run_then(s0, 1, s1, steps);
    }
}

/// A loop statement whose condition gives `false` at once runs no
/// statement of its body, not even once: it gives the signal to go on, and
/// leaves the tables that the condition left.
pub proof fn while_with_a_false_condition_runs_nothing(
    s: InterpreterView,
    condition: ExprView,
    body: Seq<StmtView>,
    line: usize,
    steps: nat,
    t: InterpreterView,
)
    requires
        evaluates(s.at_line(line), condition, steps, t, ExprView::Boolean(false)),
    ensures
        executes(
            s,
            StmtView::While { condition, body, line },
            steps + 2,
            t,
            ControlFlowView::Proceed,
        ),
{
    loop_ends(s.at_line(line), condition, body, line, steps, t);
    while_executes(s, condition, body, line, steps + 1, t, ControlFlowView::Proceed);
}


/// The statement `name is name op 1`.
pub open spec fn counts(name: Seq<char>, op: TokenView, line: usize) -> StmtView {
    StmtView::VariableAssign {
        name,
        object: None,
        value: ExprView::BinOp {
            left: Box::new(ExprView::Ident(name)),
            op,
            right: Box::new(ExprView::Number(1)),
        },
        line,
    }
}

/// The condition `x > 0`.
pub open spec fn is_positive(x: Seq<char>) -> ExprView {
    ExprView::BinOp {
        left: Box::new(ExprView::Ident(x)),
        op: TokenView::GreaterThan,
        right: Box::new(ExprView::Number(0)),
    }
}

/// The statements `x is x - 1` and `n is n + 1`.
pub open spec fn counts_down_and_up(
    x: Seq<char>,
    n: Seq<char>,
    first_line: usize,
    second_line: usize,
) -> Seq<StmtView> {
    seq![counts(x, TokenView::Minus, first_line), counts(n, TokenView::Plus, second_line)]
}

/// The statement `name is name - 1` lowers the integer that `name` holds by
/// one, and `name is name + 1` raises it by one, in seven steps.
pub proof fn counting_executes(
    s: InterpreterView,
    name: Seq<char>,
    op: TokenView,
    line: usize,
    held: i64,
)
    requires
        s.variables.contains_key(name),
        s.variables[name] == ExprView::Number(held),
        op == TokenView::Minus || op == TokenView::Plus,
        op == TokenView::Minus ==> fits(held - 1),
        op == TokenView::Plus ==> fits(held + 1),
    ensures
        executes(
            s,
            counts(name, op, line),
            7,
            s.at_line(line).bind(
                name,
                ExprView::Number(
                    if op == TokenView::Minus {
                        (held - 1) as i64
                    } else {
                        (held + 1) as i64
                    },
                ),
            ),
            ControlFlowView::Proceed,
        ),
{
    let here = s.at_line(line);
    name_evaluates(here, name);
    literal_evaluates(here, ExprView::Number(1));
    integers_compute(here, ExprView::Ident(name), 1, here, held, op, ExprView::Number(1), 1, here, 1);
    let value = ExprView::BinOp {
        left: Box::new(ExprView::Ident(name)),
        op,
        right: Box::new(ExprView::Number(1)),
    };
    let after = ExprView::Number(
        if op == TokenView::Minus {
            (held - 1) as i64
        } else {
            (held + 1) as i64
        },
    );
    assignment_executes(s, name, None, value, line, 5, here, after);
}

/// The loop `skibidi (x > 0) do x is x - 1  n is n + 1 slay`, entered with
/// `x` at `k`, not negative, and `n` at `m`: the condition is tested before
/// every pass, the first one too; the body runs exactly `k` times; and the
/// loop ends with `x` at zero and `n` at `m + k`, every other variable and
/// table as it was.
pub proof fn countdown_loops(
    s: InterpreterView,
    x: Seq<char>,
    n: Seq<char>,
    k: i64,
    m: i64,
    first_line: usize,
    second_line: usize,
    line: usize,
)
    requires
        x != n,
        s.variables.contains_key(x),
        s.variables[x] == ExprView::Number(k),
        s.variables.contains_key(n),
        s.variables[n] == ExprView::Number(m),
        0 <= k,
        fits(m + k),
    ensures
        loops(
            s,
            is_positive(x),
            counts_down_and_up(x, n, first_line, second_line),
            line,
            (24 * k + 6) as nat,
            InterpreterView {
                variables: s.variables.insert(x, ExprView::Number(0)).insert(
                    n,
                    ExprView::Number((m + k) as i64),
                ),
                line: if k == 0 {
                    s.line
                } else {
                    line
                },
                ..s
            },
            ControlFlowView::Proceed,
        ),
    decreases k,
{
    let condition = is_positive(x);
    let body = counts_down_and_up(x, n, first_line, second_line);
    let end = InterpreterView {
        variables: s.variables.insert(x, ExprView::Number(0)).insert(
            n,
            ExprView::Number((m + k) as i64),
        ),
        line: if k == 0 {
            s.line
        } else {
            line
        },
        ..s
    };
    name_evaluates(s, x);
    literal_evaluates(s, ExprView::Number(0));
    integers_compute(
        s,
        ExprView::Ident(x),
        1,
        s,
        k,
        TokenView::GreaterThan,
        ExprView::Number(0),
        1,
        s,
        0,
    );
    if k == 0 {
        assert(end.variables =~= s.variables);
        loop_ends(s, condition, body, line, 5, s);
    } else {
        counting_executes(s, x, TokenView::Minus, first_line, k);
        let s1 = s.at_line(first_line).bind(x, ExprView::Number((k - 1) as i64));
        counting_executes(s1, n, TokenView::Plus, second_line, m);
        let s2 = s1.at_line(second_line).bind(n, ExprView::Number((m + 1) as i64));
        block_ends(s2, body, 2);
        block_goes_on(s1, body, 1, 7, s2, 1, s2, ControlFlowView::Proceed);
        block_goes_on(s, body, 0, 7, s1, 9, s2, ControlFlowView::Proceed);
        let again = s2.at_line(line);
        countdown_loops(again, x, n, (k - 1) as i64, (m + 1) as i64, first_line, second_line, line);
        let rest_end = InterpreterView {
            variables: again.variables.insert(x, ExprView::Number(0)).insert(
                n,
                ExprView::Number((m + k) as i64),
            ),
            line,
            ..again
        };
        assert(rest_end.variables =~= end.variables);
        loop_passes(
            s,
            condition,
            body,
            line,
            5,
            s,
            ExprView::Boolean(true),
            17,
            s2,
            ControlFlowView::Proceed,
            (24 * (k - 1) + 6) as nat,
            end,
            ControlFlowView::Proceed,
        );
    }
}

/// The statement of that loop: from `x` at `k` and `n` at `m` it gives the
/// signal to go on, and leaves `x` at zero, `n` at `m + k` and the line of
/// the loop.
pub proof fn countdown_executes(
    s: InterpreterView,
    x: Seq<char>,
    n: Seq<char>,
    k: i64,
    m: i64,
    first_line: usize,
    second_line: usize,
    line: usize,
)
    requires
        x != n,
        s.variables.contains_key(x),
        s.variables[x] == ExprView::Number(k),
        s.variables.contains_key(n),
        s.variables[n] == ExprView::Number(m),
        0 <= k,
        fits(m + k),
    ensures
        executes(
            s,
            StmtView::While {
                condition: is_positive(x),
                body: counts_down_and_up(x, n, first_line, second_line),
                line,
            },
            (24 * k + 7) as nat,
            InterpreterView {
                variables: s.variables.insert(x, ExprView::Number(0)).insert(
                    n,
                    ExprView::Number((m + k) as i64),
                ),
                line,
                ..s
            },
            ControlFlowView::Proceed,
        ),
{
    countdown_loops(s.at_line(line), x, n, k, m, first_line, second_line, line);
    while_executes(
        s,
        is_positive(x),
        counts_down_and_up(x, n, first_line, second_line),
        line,
        (24 * k + 6) as nat,
        InterpreterView {
            variables: s.variables.insert(x, ExprView::Number(0)).insert(
                n,
                ExprView::Number((m + k) as i64),
            ),
            line,
            ..s
        },
        ControlFlowView::Proceed,
    );
}

/// A function whose body is `blud a + b` for two integer literals whose sum
/// fits: a call of it gives the sum, and changes no table.
pub proof fn call_of_a_sum_returns_it(
    s: InterpreterView,
    name: Seq<char>,
    args: Seq<ExprView>,
    a: i64,
    b: i64,
    line: usize,
)
    requires
        !is_builtin(name),
        s.functions.contains_key(name),
        s.functions[name] == seq![
            StmtView::Return {
                value: ExprView::BinOp {
                    left: Box::new(ExprView::Number(a)),
                    op: TokenView::Plus,
                    right: Box::new(ExprView::Number(b)),
                },
                line,
            },
        ],
        fits(a + b),
    ensures
        evaluates(s, call_of(name, args), 11, s, ExprView::Number((a + b) as i64)),
{
    let inside = s.inside(None);
    let here = inside.at_line(line);
    let value = ExprView::BinOp {
        left: Box::new(ExprView::Number(a)),
        op: TokenView::Plus,
        right: Box::new(ExprView::Number(b)),
    };
    let sum = ExprView::Number((a + b) as i64);
    literal_evaluates(here, ExprView::Number(a));
    literal_evaluates(here, ExprView::Number(b));
    integers_compute(
        here,
        ExprView::Number(a),
        1,
        here,
        a,
        TokenView::Plus,
        ExprView::Number(b),
        1,
        here,
        b,
    );
    return_executes(inside, value, line, 5, here, sum);
    block_stops(inside, s.functions[name], 0, 7, here, ControlFlowView::Return(sum));
    call_returns(s, name, args, 9, here, ControlFlowView::Return(sum));
}


/// A declared function that is started with nothing else to do, as the
/// entry point of a program is, runs to its result: the work ends with the
/// value of the first return that the body reaches, or with zero if the
/// body ends without one.
pub proof fn function_runs_to_its_result(
    s: InterpreterView,
    name: Seq<char>,
    steps: nat,
    t: InterpreterView,
    c: ControlFlowView,
)
    requires
        s.functions.contains_key(name),
        runs_block(s.inside(None), s.functions[name], 0, steps, t, c),
    ensures
        s.on(Seq::empty()).user_call(name).run(steps + 2) == t.back_in(s).on(Seq::empty()).look(
            FocusView::Finished(Ok(call_value(c))),
        ),
{
    reveal(InterpreterView::deliver_signal);
    reveal(InterpreterView::deliver_value);
    let frames = Seq::<FrameView>::empty();
    let f1 = frames.push(FrameView::CallBoundary { instance: s.current_instance, line: s.line });
    let f2 = f1.push(FrameView::Block { statements: s.functions[name], next: 0 });
    let s1 = s.inside(None).on(f2).signal(ControlFlowView::Proceed);
    let s2 = t.on(f1).signal(c);
    let s3 = t.back_in(s).on(frames).give(call_value(c));
    assert(under(f1));
    assert(f1.drop_last() =~= frames);
    lemma_run_one(s2);
    lemma_run_then(s1, steps, s2, 1);
    lemma_run_one(s3);
    lemma_run_then(s1, steps + 1, s3, 1);
}

/// A declared function that is started with nothing else to do and whose
/// body fails ends the work with the error of the first statement that
/// fails. A name that no function declares ends it at once with the error
/// for an unknown function on the current line, and changes no table.
pub proof fn function_fails_with_its_body(
    s: InterpreterView,
    name: Seq<char>,
    steps: nat,
    t: InterpreterView,
    error: ErrorView,
)
    ensures
        s.functions.contains_key(name) && block_fails(
            s.inside(None),
            s.functions[name],
            0,
            steps,
            t,
            error,
        ) ==> s.on(Seq::empty()).user_call(name).run(steps) == t.on(Seq::empty()).fail(error),
        !s.functions.contains_key(name) ==> s.on(Seq::empty()).user_call(name) == s.on(
            Seq::empty(),
        ).fail(ErrorView::UnknownFunction { name, line: s.line }),
{
    let frames = Seq::<FrameView>::empty();
    if s.functions.contains_key(name) && block_fails(
        s.inside(None),
        s.functions[name],
        0,
        steps,
        t,
        error,
    ) {
        let f1 = frames.push(
            FrameView::CallBoundary { instance: s.current_instance, line: s.line },
        );
        assert(under(f1));
    }
}


/// A conditional evaluates its condition on its own line and runs one
/// branch: the first for any value but `false`, the second for `false`.
/// It hands on whatever signal the branch gives, a return from inside it
/// too.
pub proof fn conditional_executes(
    s: InterpreterView,
    condition: ExprView,
    then_branch: Seq<StmtView>,
    else_branch: Option<Seq<StmtView>>,
    line: usize,
    test_steps: nat,
    t: InterpreterView,
    v: ExprView,
    branch_steps: nat,
    u: InterpreterView,
    c: ControlFlowView,
)
    requires
        evaluates(s.at_line(line), condition, test_steps, t, v),
        truthy(v) ==> runs_block(t, then_branch, 0, branch_steps, u, c),
        !truthy(v) ==> else_branch is Some && runs_block(
            t,
            else_branch->Some_0,
            0,
            branch_steps,
            u,
            c,
        ),
    ensures
        executes(
            s,
            StmtView::If { condition, then_branch, else_branch, line },
            test_steps + branch_steps + 2,
            u,
            c,
        ),
{
    reveal(InterpreterView::execute);
    reveal(InterpreterView::deliver_value);
    let stmt = StmtView::If { condition, then_branch, else_branch, line };
    let branch = if truthy(v) {
        then_branch
    } else {
        else_branch->Some_0
    };
    assert forall|frames: Seq<FrameView>| #[trigger] under(frames) implies s.on(frames).look(
        FocusView::Statement(stmt),
    ).run(test_steps + branch_steps + 2) == u.on(frames).signal(c) by {
        let f1 = frames.push(FrameView::Branch { then_branch, else_branch });
        let f2 = frames.push(FrameView::Block { statements: branch, next: 0 });
        let s0 = s.on(frames).look(FocusView::Statement(stmt));
        let s1 = s.at_line(line).on(f1).look(FocusView::Expression(condition));
        let s2 = t.on(f1).give(v);
        let s3 = t.on(f2).signal(ControlFlowView::Proceed);
        assert(under(f1));
        assert(f1.drop_last() =~= frames);
        lemma_run_one(s0);
        lemma_run_then(s0, 1, s1, test_steps);
        lemma_run_one(s2);
        lemma_run_then(s0, 1 + test_steps, s2, 1);
        lemma_run_then(s0, 1 + test_steps + 1, s3, branch_steps);
    }
}

/// A conditional without a second branch whose condition gives `false`
/// runs nothing and gives the signal to go on.
pub proof fn conditional_without_a_branch_goes_on(
    s: InterpreterView,
    condition: ExprView,
    then_branch: Seq<StmtView>,
    line: usize,
    steps: nat,
    t: InterpreterView,
)
    requires
        evaluates(s.at_line(line), condition, steps, t, ExprView::Boolean(false)),
    ensures
        executes(
            s,
            StmtView::If { condition, then_branch, else_branch: None, line },
            steps + 2,
            t,
            ControlFlowView::Proceed,
        ),
{
    reveal(InterpreterView::execute);
    reveal(InterpreterView::deliver_value);
    let stmt = StmtView::If { condition, then_branch, else_branch: None, line };
    assert forall|frames: Seq<FrameView>| #[trigger] under(frames) implies s.on(frames).look(
        FocusView::Statement(stmt),
    ).run(steps + 2) == t.on(frames).signal(ControlFlowView::Proceed) by {
        let f1 = frames.push(FrameView::Branch { then_branch, else_branch: None });
        let s0 = s.on(frames).look(FocusView::Statement(stmt));
        let s1 = s.at_line(line).on(f1).look(FocusView::Expression(condition));
        let s2 = t.on(f1).give(ExprView::Boolean(false));
        assert(under(f1));
        assert(f1.drop_last() =~= frames);
        lemma_run_one(s0);
        lemma_run_then(s0, 1, s1, steps);
        lemma_run_one(s2);
        lemma_run_then(s0, 1 + steps, s2, 1);
    }
}

} // verus!
