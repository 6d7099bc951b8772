use skibidi::ast::{Expr, Stmt};
use skibidi::error::ParseError;
use skibidi::interpreter::Interpreter;
use skibidi::lexer::Lexer;
use skibidi::libs::nerd::draw;
use skibidi::libs::skui::clock::Clock;
use skibidi::libs::skui::{load_skui_state, store_skui_state, SkuiState};
use skibidi::machine::{Focus, Request};
use skibidi::parser::Parser;
use skibidi::token::Token;

struct Console {
    printed: Vec<String>,
    lines: Vec<String>,
    requests: Vec<String>,
    time: i64,
}

fn console(lines: &[&str]) -> Console {
    Console {
        printed: Vec::new(),
        lines: lines.iter().map(|l| l.to_string()).collect(),
        requests: Vec::new(),
        time: 0,
    }
}

fn drive(itp: &mut Interpreter, host: &mut Console) -> Result<Expr, ParseError> {
    loop {
        itp.advance(1000);
        if let Some(result) = itp.finish() {
            return result;
        }
        let reply = match &itp.focus {
            Focus::Waiting(Request::Print(text)) => {
                host.printed.push(text.clone());
                Ok(Expr::Boolean(true))
            }
            Focus::Waiting(Request::Prompt(text)) => {
                host.printed.push(text.clone());
                Ok(Expr::StringLiteral(host.lines.remove(0)))
            }
            Focus::Waiting(Request::Random { .. }) => {
                draw(itp);
                continue;
            }
            Focus::Waiting(Request::PumpEvents) => {
                host.requests.push("pump".to_string());
                Ok(Expr::StringLiteral("exit".to_string()))
            }
            Focus::Waiting(Request::Now) => {
                host.requests.push("now".to_string());
                Ok(Expr::Number(host.time))
            }
            Focus::Waiting(Request::Sleep { nanos }) => {
                host.requests.push(format!("sleep {}", nanos));
                host.time += (*nanos / 1_000_000) as i64 + 1;
                Ok(Expr::Number(host.time))
            }
            Focus::Waiting(other) => {
                host.requests.push(format!("{:?}", other));
                Ok(Expr::Boolean(true))
            }
            _ => continue,
        };
        itp.resume(reply);
    }
}

fn parse_program(source: &str) -> Vec<Stmt> {
    let mut lexer = Lexer::new(source);
    let mut parser = Parser::new(&mut lexer).expect("the first token lexes");
    parser.parse().expect("the program parses")
}

fn load(source: &str, host: &mut Console) -> Result<Interpreter, ParseError> {
    let mut itp = Interpreter::new();
    itp.interpret(parse_program(source));
    drive(&mut itp, host)?;
    Ok(itp)
}

fn run_mew(source: &str, host: &mut Console) -> Result<Expr, ParseError> {
    let mut itp = load(source, host)?;
    itp.execute_user_function("mew".to_string(), vec![]);
    drive(&mut itp, host)
}

fn mew(source: &str) -> Result<Expr, ParseError> {
    run_mew(source, &mut console(&[]))
}

fn evaluate(expression: &str) -> Result<Expr, ParseError> {
    mew(&format!("cookable mew() blud {} slay", expression))
}

fn text(s: &str) -> Expr {
    Expr::StringLiteral(s.to_string())
}

#[test]
fn the_entry_point_returns_three() {
    assert_eq!(mew("cookable mew() blud 1 + 2 slay").unwrap(), Expr::Number(3));
}

#[test]
fn a_missing_entry_point_is_an_unknown_function() {
    match mew("cookable other() blud 1 slay") {
        Err(ParseError::UnknownFunction { name, line }) => {
            assert_eq!(name, "mew");
            assert_eq!(line, 1);
        }
        other => panic!("unexpected {:?}", other),
    }
}

#[test]
fn a_loop_guarded_by_x_above_zero_runs_five_times() {
    let source = "cookable mew()\n x is 5\n n is 0\n skibidi (x > 0) do\n  x is x - 1\n  n is n + 1\n slay\n blud n\nslay";
    let mut host = console(&[]);
    let mut itp = load(source, &mut host).unwrap();
    itp.execute_user_function("mew".to_string(), vec![]);
    assert_eq!(drive(&mut itp, &mut host).unwrap(), Expr::Number(5));
    assert_eq!(itp.variables.get("x"), Some(&Expr::Number(0)));
    assert_eq!(itp.variables.get("n"), Some(&Expr::Number(5)));
}

#[test]
fn a_loop_whose_condition_is_false_at_first_never_runs() {
    let source = "cookable mew() n is 0 skibidi (n > 0) do n is n + 100 slay blud n slay";
    assert_eq!(mew(source).unwrap(), Expr::Number(0));
}

#[test]
fn integer_operators_compute_as_the_machine_does() {
    assert_eq!(evaluate("7 + 5").unwrap(), Expr::Number(12));
    assert_eq!(evaluate("7 - 5").unwrap(), Expr::Number(2));
    assert_eq!(evaluate("5 - 7").unwrap(), Expr::Number(-2));
    assert_eq!(evaluate("7 * 5").unwrap(), Expr::Number(35));
    assert_eq!(evaluate("7 / 5").unwrap(), Expr::Number(1));
    assert_eq!(evaluate("-7 / 2").unwrap(), Expr::Number(-3));
    assert_eq!(evaluate("7 / -2").unwrap(), Expr::Number(-3));
    assert_eq!(evaluate("-7 / -2").unwrap(), Expr::Number(3));
    assert_eq!(evaluate("0 / 5").unwrap(), Expr::Number(0));
    assert_eq!(evaluate("7 rizz 7").unwrap(), Expr::Boolean(true));
    assert_eq!(evaluate("7 rizz 5").unwrap(), Expr::Boolean(false));
    assert_eq!(evaluate("7 > 5").unwrap(), Expr::Boolean(true));
    assert_eq!(evaluate("5 > 7").unwrap(), Expr::Boolean(false));
    assert_eq!(evaluate("5 < 7").unwrap(), Expr::Boolean(true));
    assert_eq!(evaluate("7 < 7").unwrap(), Expr::Boolean(false));
    assert_eq!(evaluate("1 + 2 * 3").unwrap(), Expr::Number(7));
}

#[test]
fn division_by_zero_carries_the_line_of_the_division() {
    match mew("cookable mew()\n x is 1\n blud 7 / 0\nslay") {
        Err(ParseError::DivisionByZero { line }) => assert_eq!(line, 3),
        other => panic!("unexpected {:?}", other),
    }
}

#[test]
fn an_integer_result_that_does_not_fit_is_an_error() {
    for expression in [
        "9223372036854775807 + 1",
        "-9223372036854775807 - 2",
        "9223372036854775807 * 2",
        "(cook -9223372036854775807 - 1) / -1",
    ] {
        if expression.starts_with('(') {
            continue;
        }
        match evaluate(expression) {
            Err(ParseError::GeneralError { message, line }) => {
                assert_eq!(message, "Integer overflow");
                assert_eq!(line, 1);
            }
            other => panic!("unexpected {:?}", other),
        }
    }
    let least = "cookable mew() x is -9223372036854775807 - 1 blud x / -1 slay";
    assert!(matches!(mew(least), Err(ParseError::GeneralError { .. })));
}

#[test]
fn string_operators() {
    assert_eq!(evaluate("\"ab\" + \"cd\"").unwrap(), text("abcd"));
    assert_eq!(evaluate("\"ab\" rizz \"ab\"").unwrap(), Expr::Boolean(true));
    assert_eq!(evaluate("\"ab\" rizz \"abc\"").unwrap(), Expr::Boolean(false));
    for op in ["-", "*", "/", ">", "<"] {
        match evaluate(&format!("\"ab\" {} \"cd\"", op)) {
            Err(ParseError::TypeError { found, line, .. }) => {
                assert_eq!(line, 1);
                assert!(matches!(found, Expr::BinOp { .. }));
            }
            other => panic!("unexpected {:?} for {}", other, op),
        }
    }
    assert!(matches!(evaluate("\"ab\" + 1"), Err(ParseError::TypeError { .. })));
    assert!(matches!(evaluate("1 rizz \"1\""), Err(ParseError::TypeError { .. })));
    match evaluate("sigma + 1") {
        Err(ParseError::TypeError { expected, found, line }) => {
            assert_eq!(expected, Expr::Number(-1));
            assert_eq!(
                found,
                Expr::BinOp {
                    left: Box::new(Expr::Boolean(true)),
                    op: Token::Plus,
                    right: Box::new(Expr::Number(1)),
                }
            );
            assert_eq!(line, 1);
        }
        other => panic!("unexpected {:?}", other),
    }
    match evaluate("1 > \"a\"") {
        Err(ParseError::TypeError { expected, .. }) => assert_eq!(expected, Expr::Boolean(false)),
        other => panic!("unexpected {:?}", other),
    }
}

#[test]
fn an_unknown_name_is_an_unknown_function_until_it_is_declared() {
    match mew("cookable mew()\n blud helper()\nslay") {
        Err(ParseError::UnknownFunction { name, line }) => {
            assert_eq!(name, "helper");
            assert_eq!(line, 2);
        }
        other => panic!("unexpected {:?}", other),
    }
    let declared = "cookable helper() blud 41 slay cookable mew() blud helper() + 1 slay";
    assert_eq!(mew(declared).unwrap(), Expr::Number(42));
}

#[test]
fn an_unknown_variable_is_an_error() {
    match mew("cookable mew()\n\n blud y\nslay") {
        Err(ParseError::UnknownVariable { name, line }) => {
            assert_eq!(name, "y");
            assert_eq!(line, 3);
        }
        other => panic!("unexpected {:?}", other),
    }
}

#[test]
fn a_function_without_a_return_gives_zero() {
    assert_eq!(mew("cookable mew() x is 1 slay").unwrap(), Expr::Number(0));
    assert_eq!(mew("cookable f() slay cookable mew() blud f() slay").unwrap(), Expr::Number(0));
}

#[test]
fn a_return_leaves_nested_blocks_and_loops() {
    let source = "cookable mew()\n x is 0\n skibidi (sigma) do\n  x is x + 1\n  sus (x rizz 3) then\n   blud x * 10\n  slay\n slay\n blud 0\nslay";
    assert_eq!(mew(source).unwrap(), Expr::Number(30));
}

#[test]
fn a_continue_skips_the_rest_of_the_pass() {
    let source = "cookable mew()\n x is 0\n n is 0\n skibidi (x < 5) do\n  x is x + 1\n  sus (x rizz 2) then ghost slay\n  n is n + 1\n slay\n blud n\nslay";
    assert_eq!(mew(source).unwrap(), Expr::Number(4));
}

#[test]
fn conditions_count_every_value_but_false_as_true() {
    assert_eq!(
        mew("cookable mew() sus (0) then blud 1 ick blud 2 slay slay").unwrap(),
        Expr::Number(1)
    );
    assert_eq!(
        mew("cookable mew() sus (\"\") then blud 1 ick blud 2 slay slay").unwrap(),
        Expr::Number(1)
    );
    assert_eq!(
        mew("cookable mew() sus (ohio) then blud 1 ick blud 2 slay slay").unwrap(),
        Expr::Number(2)
    );
    assert_eq!(
        mew("cookable mew() sus (1 > 2) then blud 1 slay blud 3 slay").unwrap(),
        Expr::Number(3)
    );
}

#[test]
fn a_for_loop_binds_each_element_in_turn() {
    let source = "cookable mew()\n sum is 0\n goon (i in [1, 2, 3 + 4]) do\n  sum is sum + i\n slay\n blud sum\nslay";
    assert_eq!(mew(source).unwrap(), Expr::Number(10));
    let early = "cookable mew() goon (i in [1, 2, 3]) do sus (i rizz 2) then blud i slay slay blud 0 slay";
    assert_eq!(mew(early).unwrap(), Expr::Number(2));
    assert_eq!(mew("cookable mew() goon (i in []) do blud 1 slay blud 7 slay").unwrap(), Expr::Number(7));
}

#[test]
fn lists_evaluate_their_elements() {
    assert_eq!(
        mew("cookable mew() x is 2 blud [1, x, x * 2] slay").unwrap(),
        Expr::List(vec![Expr::Number(1), Expr::Number(2), Expr::Number(4)])
    );
    assert_eq!(evaluate("[]").unwrap(), Expr::List(vec![]));
}

#[test]
fn declarations_do_not_run_until_called() {
    let mut host = console(&[]);
    let itp = load("cookable mew() cook yap(\"never\") slay", &mut host).unwrap();
    assert!(host.printed.is_empty());
    assert!(itp.functions.contains_key("mew"));
}

#[test]
fn the_later_of_two_declarations_stays() {
    let source = "cookable f() blud 1 slay cookable f() blud 2 slay cookable mew() blud f() slay";
    assert_eq!(mew(source).unwrap(), Expr::Number(2));
    let classes = "pookie C() cookable __edge__() slay cookable v() blud 1 slay slay\npookie C() cookable __edge__() slay cookable v() blud 2 slay slay\ncookable mew() c is new C() blud c.v() slay";
    assert_eq!(mew(classes).unwrap(), Expr::Number(2));
}

#[test]
fn yap_prints_its_arguments_with_a_space_after_each() {
    let mut host = console(&[]);
    let source = "cookable mew() blud yap(\"a\", 12, sigma, ohio, -3, [1]) slay";
    assert_eq!(run_mew(source, &mut host).unwrap(), Expr::Boolean(true));
    assert_eq!(host.printed, vec!["a 12 sigma ohio -3  ".to_string()]);
    let mut host = console(&[]);
    assert_eq!(run_mew("cookable mew() blud yap() slay", &mut host).unwrap(), Expr::Boolean(true));
    assert_eq!(host.printed, vec![String::new()]);
}

#[test]
fn attemptrizz_prints_the_question_and_gives_the_trimmed_line() {
    let mut host = console(&["  Ada \n"]);
    let source = "cookable mew() name is attemptrizz(\"who? \") blud \"hi \" + name slay";
    assert_eq!(run_mew(source, &mut host).unwrap(), text("hi Ada"));
    assert_eq!(host.printed, vec!["who? ".to_string()]);
    assert!(matches!(
        mew("cookable mew() blud attemptrizz() slay"),
        Err(ParseError::ArgumentMismatch { expected: 1, found: 0, line: 1 })
    ));
}

#[test]
fn aura_turns_a_value_into_an_integer() {
    assert_eq!(evaluate("aura(5)").unwrap(), Expr::Number(5));
    assert_eq!(evaluate("aura(\"42\")").unwrap(), Expr::Number(42));
    assert_eq!(evaluate("aura(\"-42\")").unwrap(), Expr::Number(-42));
    assert_eq!(evaluate("aura(\"+7\")").unwrap(), Expr::Number(7));
    assert_eq!(
        evaluate("aura(\"-9223372036854775808\")").unwrap(),
        Expr::Number(i64::MIN)
    );
    for bad in ["", " 1", "1 ", "-", "+", "1x", "9223372036854775808", "--1"] {
        match evaluate(&format!("aura(\"{}\")", bad)) {
            Err(ParseError::GeneralError { message, line }) => {
                assert_eq!(message, format!("Failed to parse {} as number", bad));
                assert_eq!(line, 1);
            }
            other => panic!("unexpected {:?} for {:?}", other, bad),
        }
    }
    match evaluate("aura(sigma)") {
        Err(ParseError::TypeError { expected, found, line }) => {
            assert_eq!(expected, Expr::Number(-1));
            assert_eq!(found, Expr::Boolean(true));
            assert_eq!(line, 1);
        }
        other => panic!("unexpected {:?}", other),
    }
    assert!(matches!(
        evaluate("aura(1, 2)"),
        Err(ParseError::ArgumentMismatch { expected: 1, found: 2, line: 1 })
    ));
    assert!(matches!(
        evaluate("aura()"),
        Err(ParseError::ArgumentMismatch { expected: 1, found: 0, .. })
    ));
}

#[test]
fn the_number_of_arguments_is_checked_before_any_is_evaluated() {
    assert!(matches!(
        evaluate("aura(missing, 2)"),
        Err(ParseError::ArgumentMismatch { expected: 1, found: 2, .. })
    ));
    assert!(matches!(evaluate("aura(missing)"), Err(ParseError::UnknownVariable { .. })));
}

#[test]
fn importing_an_unknown_library_is_an_error_and_loads_nothing() {
    let mut itp = Interpreter::new();
    itp.interpret(parse_program("gyatt nerd\n\ngyatt nope"));
    match drive(&mut itp, &mut console(&[])) {
        Err(ParseError::GeneralError { line, message }) => {
            assert_eq!(line, 3);
            assert_eq!(message, "Unknown library gyatt import: nope");
        }
        other => panic!("unexpected {:?}", other),
    }
    assert_eq!(itp.libs.len(), 1);
    assert!(itp.libs.contains_key("nerd"));
    assert!(!itp.libs.contains_key("nope"));
}

#[test]
fn rand_int_stays_in_its_range() {
    let source = "gyatt nerd cookable mew() blud nerd.randInt(3, 5) slay";
    for _ in 0..50 {
        match mew(source).unwrap() {
            Expr::Number(n) => assert!((3..=5).contains(&n)),
            other => panic!("unexpected {:?}", other),
        }
    }
    assert_eq!(
        mew("gyatt nerd cookable mew() blud nerd.randInt(4, 4) slay").unwrap(),
        Expr::Number(4)
    );
}

#[test]
fn rand_int_checks_its_arguments() {
    match mew("gyatt nerd cookable mew() blud nerd.randInt(5, 3) slay") {
        Err(ParseError::GeneralError { message, line }) => {
            assert_eq!(message, "min cannot be greater than max");
            assert_eq!(line, 1);
        }
        other => panic!("unexpected {:?}", other),
    }
    assert!(matches!(
        mew("gyatt nerd cookable mew() blud nerd.randInt(5) slay"),
        Err(ParseError::ArgumentMismatch { expected: 2, found: 1, line: 1 })
    ));
    match mew("gyatt nerd cookable mew() blud nerd.randInt(1, \"x\") slay") {
        Err(ParseError::TypeError { expected, found, .. }) => {
            assert_eq!(expected, Expr::Number(-1));
            assert_eq!(found, text("x"));
        }
        other => panic!("unexpected {:?}", other),
    }
}

#[test]
fn a_number_handed_in_for_a_draw_must_lie_in_the_range() {
    let mut itp = load("gyatt nerd cookable mew() blud nerd.randInt(1, 6) slay", &mut console(&[]))
        .unwrap();
    itp.execute_user_function("mew".to_string(), vec![]);
    itp.advance(1000);
    assert!(matches!(itp.focus, Focus::Waiting(Request::Random { min: 1, max: 6 })));
    itp.resume(Ok(Expr::Number(4)));
    assert_eq!(drive(&mut itp, &mut console(&[])).unwrap(), Expr::Number(4));
    itp.execute_user_function("mew".to_string(), vec![]);
    itp.advance(1000);
    itp.resume(Ok(Expr::Number(7)));
    assert!(matches!(itp.finish(), Some(Err(ParseError::Other(_)))));
}

#[test]
fn calls_on_a_receiver_find_methods_before_libraries() {
    let source = "gyatt nerd\npookie Dice() cookable __edge__() slay cookable randInt() blud 99 slay slay\ncookable mew()\n nerd is new Dice()\n blud nerd.randInt()\nslay";
    assert_eq!(mew(source).unwrap(), Expr::Number(99));
}

#[test]
fn receivers_that_resolve_to_nothing_are_errors() {
    let cases = [
        ("cookable mew() blud nothing.f() slay", "Unknown library: nothing"),
        ("gyatt nerd cookable mew() blud nerd.f() slay", "Unknown function: f on object nerd"),
        (
            "cookable mew() x is 1 blud x.f() slay",
            "Object calls of variables are only supported for instance variables.",
        ),
        (
            "cookable mew() blud self.f() slay",
            "Cannot use 'self' outside of a method context",
        ),
        (
            "pookie C() cookable __edge__() slay slay cookable mew() c is new C() blud c.f() slay",
            "Unknown function: f on object c",
        ),
        ("cookable mew() blud new Missing() slay", "Unknown class: Missing"),
        ("cookable mew() blud a.b slay", "Unsupported expression ObjectValue { object: Some(Ident(\"a\")), name: \"b\" }"),
    ];
    for (source, expected) in cases {
        match mew(source) {
            Err(ParseError::GeneralError { message, .. }) => assert_eq!(message, expected),
            other => panic!("unexpected {:?} for {}", other, source),
        }
    }
}

#[test]
fn instances_get_fresh_ids_and_run_the_constructor() {
    let source = "pookie C()\n cookable __edge__() made is made + 1 slay\n cookable twice() blud self.once() * 2 slay\n cookable once() blud 21 slay\nslay\ncookable mew()\n made is 0\n a is new C()\n b is new C()\n blud [a, b, made, b.twice()]\nslay";
    assert_eq!(
        mew(source).unwrap(),
        Expr::List(vec![
            Expr::Instance { class_name: "C".to_string(), instance_id: 0 },
            Expr::Instance { class_name: "C".to_string(), instance_id: 1 },
            Expr::Number(2),
            Expr::Number(42),
        ])
    );
}

#[test]
fn the_line_of_the_caller_is_restored_after_a_call() {
    let source = "cookable f()\n x is 1\n\n\n blud 1\nslay\ncookable mew()\n blud f() / 0\nslay";
    match mew(source) {
        Err(ParseError::DivisionByZero { line }) => assert_eq!(line, 8),
        other => panic!("unexpected {:?}", other),
    }
}

#[test]
fn a_budget_of_steps_bounds_the_work() {
    let mut itp = load("cookable mew() skibidi (sigma) do x is 1 slay slay", &mut console(&[]))
        .unwrap();
    itp.execute_user_function("mew".to_string(), vec![]);
    itp.advance(10_000);
    assert!(!itp.rests());
    assert!(itp.finish().is_none());
    itp.advance(0);
    assert!(!itp.rests());
}

#[test]
fn single_steps_follow_the_frames() {
    let mut itp = Interpreter::new();
    itp.evaluate_expression(Expr::BinOp {
        left: Box::new(Expr::Number(6)),
        op: Token::Star,
        right: Box::new(Expr::Number(7)),
    });
    assert_eq!(itp.frames.len(), 1);
    assert!(matches!(itp.focus, Focus::Expression(Expr::Number(6))));
    itp.step();
    assert!(matches!(itp.focus, Focus::Value(Expr::Number(6))));
    itp.step();
    assert!(matches!(itp.focus, Focus::Expression(Expr::Number(7))));
    itp.step();
    itp.step();
    assert!(matches!(itp.focus, Focus::Value(Expr::Number(42))));
    assert!(itp.frames.is_empty());
    itp.step();
    assert!(matches!(itp.finish(), Some(Ok(Expr::Number(42)))));
    itp.step();
    assert!(itp.rests());
}

#[test]
fn coercions_of_values() {
    let itp = Interpreter::new();
    let source = Expr::Ident("x".to_string());
    assert_eq!(itp.expr_to_string(&text("x"), &source).unwrap(), "x");
    assert_eq!(itp.expr_to_string(&text(""), &source).unwrap(), "");
    for value in [
        Expr::Number(-120),
        Expr::Boolean(true),
        Expr::List(vec![]),
        Expr::List(vec![text("x")]),
        Expr::Instance { class_name: "C".to_string(), instance_id: 0 },
    ] {
        match itp.expr_to_string(&value, &source) {
            Err(ParseError::TypeError { expected, found, line }) => {
                assert_eq!(expected, text(""));
                assert_eq!(found, source);
                assert_eq!(line, 0);
            }
            other => panic!("unexpected {:?} for {:?}", other, value),
        }
    }
    assert_eq!(skibidi::interpreter::value_text(&Expr::Number(-120)), "-120");
    assert_eq!(skibidi::interpreter::value_text(&Expr::Number(0)), "0");
    assert_eq!(
        skibidi::interpreter::value_text(&Expr::Number(i64::MIN)),
        "-9223372036854775808"
    );
    assert_eq!(
        skibidi::interpreter::value_text(&Expr::Number(i64::MAX)),
        "9223372036854775807"
    );
    assert_eq!(skibidi::interpreter::value_text(&text("x")), "x");
    assert_eq!(skibidi::interpreter::value_text(&Expr::Boolean(true)), "sigma");
    assert_eq!(skibidi::interpreter::value_text(&Expr::Boolean(false)), "ohio");
    assert_eq!(skibidi::interpreter::value_text(&Expr::List(vec![])), "");
    assert_eq!(itp.expr_to_number(&Expr::Number(7), &source).unwrap(), 7);
    match itp.expr_to_number(&text("7"), &source) {
        Err(ParseError::TypeError { expected, found, line }) => {
            assert_eq!(expected, Expr::Number(-1));
            assert_eq!(found, source);
            assert_eq!(line, 0);
        }
        other => panic!("unexpected {:?}", other),
    }
}

#[test]
fn a_text_parameter_takes_a_string_only() {
    let calls = [
        ("attemptrizz(5)", Expr::Number(5)),
        ("attemptrizz(sigma)", Expr::Boolean(true)),
        ("attemptrizz([1])", Expr::List(vec![Expr::Number(1)])),
        ("skui.createWindow(1, 1, [1])", Expr::List(vec![Expr::Number(1)])),
        ("skui.createWindow(1, 1, 7)", Expr::Number(7)),
        ("skui.goonScreen(255)", Expr::Number(255)),
    ];
    for (call, source) in calls {
        let mut host = console(&[]);
        match run_mew(&format!("gyatt skui\ncookable mew()\n blud {}\nslay", call), &mut host) {
            Err(ParseError::TypeError { expected, found, line }) => {
                assert_eq!(expected, text(""));
                assert_eq!(found, source, "for {}", call);
                assert_eq!(line, 3);
            }
            other => panic!("unexpected {:?} for {}", other, call),
        }
        assert!(host.requests.is_empty() && host.printed.is_empty());
    }
    let mut host = console(&[]);
    let by_name = "gyatt skui\ncookable mew()\n t is 5\n blud skui.createWindow(1, 1, t)\nslay";
    match run_mew(by_name, &mut host) {
        Err(ParseError::TypeError { found, line, .. }) => {
            assert_eq!(found, Expr::Ident("t".to_string()));
            assert_eq!(line, 4);
        }
        other => panic!("unexpected {:?}", other),
    }
}

#[test]
fn consume_argument_wants_the_exact_count() {
    let itp = Interpreter::new();
    let args = vec![Expr::Number(1), Expr::Number(2)];
    assert_eq!(itp.consume_argument(&args, 2, 1).unwrap(), Expr::Number(2));
    assert!(matches!(
        itp.consume_argument(&args, 3, 1),
        Err(ParseError::ArgumentMismatch { expected: 3, found: 2, line: 0 })
    ));
    assert!(matches!(
        itp.consume_argument(&args, 2, 2),
        Err(ParseError::ArgumentMismatch { expected: 2, found: 2, .. })
    ));
}

#[test]
fn the_window_library_validates_before_it_asks_the_host() {
    let mut host = console(&[]);
    let source = "gyatt skui\ncookable mew()\n a is skui.goonScreen(\"#ff8000\")\n b is skui.pumpEvents(1, 2, 3)\n c is skui.createWindow(640, 480, \"game\")\n d is skui.goonScreen(\"#ff8000\")\n e is skui.pumpEvents()\n f is skui.setFramesPerSkibidi(30)\n g is skui.clockEdge()\n blud [a, b, c, d, e, f, g]\nslay";
    assert_eq!(
        run_mew(source, &mut host).unwrap(),
        Expr::List(vec![
            Expr::Boolean(false),
            Expr::Boolean(true),
            Expr::Boolean(true),
            text("ok"),
            text("exit"),
            Expr::Boolean(true),
            Expr::Boolean(true),
        ])
    );
    assert_eq!(
        host.requests,
        vec![
            "CreateWindow { width: 640, height: 480, title: \"game\" }".to_string(),
            "FillScreen { red: 255, green: 128, blue: 0, alpha: 255 }".to_string(),
            "pump".to_string(),
        ]
    );
    let bad = [
        ("skui.createWindow(0, 480, \"t\")", "Window dimensions must be greater than zero."),
        ("skui.createWindow(640, -1, \"t\")", "Window dimensions must be greater than zero."),
        ("skui.createWindow(4294967296, 1, \"t\")", "Window dimensions must be greater than zero."),
        ("skui.goonScreen(\"#12345\")", "Invalid hex color"),
        ("skui.goonScreen(\"zz0000\")", "Invalid red value in hex color"),
        ("skui.goonScreen(\"00zz00\")", "Invalid green value in hex color"),
        ("skui.goonScreen(\"0000zz\")", "Invalid blue value in hex color"),
    ];
    for (call, expected) in bad {
        match mew(&format!("gyatt skui cookable mew() blud {} slay", call)) {
            Err(ParseError::GeneralError { message, .. }) => assert_eq!(message, expected),
            other => panic!("unexpected {:?} for {}", other, call),
        }
    }
}

#[test]
fn the_animation_wants_the_secret_number() {
    let mut host = console(&[]);
    assert_eq!(
        run_mew("gyatt apel cookable mew() blud apel.spawnTheApel(420) slay", &mut host).unwrap(),
        Expr::Number(0)
    );
    assert_eq!(host.requests, vec!["Animation".to_string()]);
    match mew("gyatt apel cookable mew() blud apel.spawnTheApel(421) slay") {
        Err(ParseError::GeneralError { message, .. }) => {
            assert_eq!(message, "arg must be secret number")
        }
        other => panic!("unexpected {:?}", other),
    }
}

#[test]
fn an_error_from_the_host_ends_the_work() {
    let mut itp = load("cookable mew() cook yap(1) blud 2 slay", &mut console(&[])).unwrap();
    itp.execute_user_function("mew".to_string(), vec![]);
    itp.advance(1000);
    assert!(matches!(itp.focus, Focus::Waiting(Request::Print(_))));
    itp.resume(Err(ParseError::Other("the console is closed".to_string())));
    match itp.finish() {
        Some(Err(ParseError::Other(message))) => assert_eq!(message, "the console is closed"),
        other => panic!("unexpected {:?}", other),
    }
    assert!(itp.frames.is_empty());
    itp.resume(Ok(Expr::Number(1)));
    assert!(itp.finish().is_none() || itp.rests());
}

#[test]
fn the_body_of_the_entry_point_signals_a_return_of_three() {
    let mut itp = load("cookable mew() blud 1 + 2 slay", &mut console(&[])).unwrap();
    itp.execute_user_function("mew".to_string(), vec![]);
    let mut seen = false;
    for _ in 0..100 {
        if let Focus::Signal(skibidi::machine::ControlFlow::Return(value)) = &itp.focus {
            assert_eq!(*value, Expr::Number(3));
            seen = true;
            break;
        }
        itp.step();
    }
    assert!(seen);
    assert_eq!(drive(&mut itp, &mut console(&[])).unwrap(), Expr::Number(3));
}

#[test]
fn draws_are_not_all_the_least_number() {
    let source = "gyatt nerd cookable mew() blud nerd.randInt(0, 1000000000) slay";
    let mut drawn = Vec::new();
    for _ in 0..20 {
        match mew(source).unwrap() {
            Expr::Number(n) => drawn.push(n),
            other => panic!("unexpected {:?}", other),
        }
    }
    assert!(drawn.iter().all(|n| (0..=1000000000).contains(n)));
    assert!(drawn.iter().any(|n| *n != 0));
    assert!(drawn.iter().any(|n| *n != 1000000000));
    assert!(drawn.iter().any(|n| *n != drawn[0]));
}

#[test]
fn an_assignment_with_a_receiver_binds_the_global_name() {
    let source = "cookable mew() self.x is 5 blud x slay";
    assert_eq!(mew(source).unwrap(), Expr::Number(5));
}

#[test]
fn top_level_statements_run_when_the_program_is_loaded() {
    let mut host = console(&[]);
    let itp = load("x is 2 * 21\ncook yap(x)\ncookable mew() slay", &mut host).unwrap();
    assert_eq!(host.printed, vec!["42 ".to_string()]);
    assert_eq!(itp.variables.get("x"), Some(&Expr::Number(42)));
    assert_eq!(itp.line, 3);
}

#[test]
fn the_clock_ticks_once_it_is_there() {
    let mut host = console(&[]);
    let source = "gyatt skui\ncookable mew()\n a is skui.setFramesPerSkibidi(50)\n b is skui.clockEdge()\n c is skui.clockEdge()\n blud [a, b, c]\nslay";
    let mut itp = load(source, &mut host).unwrap();
    assert!(load_skui_state(&itp).unwrap().clock.is_none());
    store_skui_state(&mut itp, SkuiState { app: None, clock: Some(Clock::default()) });
    host.time = 5;
    itp.execute_user_function("mew".to_string(), vec![]);
    assert_eq!(
        drive(&mut itp, &mut host).unwrap(),
        Expr::List(vec![Expr::Boolean(true), Expr::Number(21), Expr::Number(21)])
    );
    assert_eq!(
        host.requests,
        vec![
            "now".to_string(),
            "sleep 15000000".to_string(),
            "now".to_string(),
            "sleep 20000000".to_string(),
        ]
    );
    let clock = load_skui_state(&itp).unwrap().clock.unwrap();
    assert_eq!(clock.target_frame_nanos, 20_000_000);
    assert_eq!(clock.last_frame_millis, 42);

    for bad in ["0", "-1", "4294967296"] {
        itp.interpret(
            parse_program(&format!("cook skui.setFramesPerSkibidi({})", bad)),
        );
        match drive(&mut itp, &mut host) {
            Err(ParseError::GeneralError { message, .. }) => {
                assert_eq!(message, "Frame rate must be greater than zero.")
            }
            other => panic!("unexpected {:?}", other),
        }
    }
}

#[test]
fn a_return_at_the_top_level_does_not_end_the_program() {
    let source = "blud 1\nghost\ncookable g() blud 7 slay\nx is 2";
    let mut itp = Interpreter::new();
    itp.interpret(parse_program(source));
    assert_eq!(drive(&mut itp, &mut console(&[])).unwrap(), Expr::Number(0));
    assert!(itp.functions.contains_key("g"));
    assert_eq!(itp.variables.get("x"), Some(&Expr::Number(2)));
    itp.execute_user_function("g".to_string(), vec![]);
    assert_eq!(drive(&mut itp, &mut console(&[])).unwrap(), Expr::Number(7));
}
