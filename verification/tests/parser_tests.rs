use skibidi::ast::{Expr, Stmt};
use skibidi::cursor::Until;
use skibidi::error::ParseError;
use skibidi::lexer::Lexer;
use skibidi::parser::Parser;
use skibidi::token::Token;

fn parse_source(source: &str) -> Result<Vec<Stmt>, ParseError> {
    let mut lexer = Lexer::new(source);
    let mut parser = Parser::new(&mut lexer)?;
    parser.parse()
}

fn parse_one_expression(source: &str) -> Result<Expr, ParseError> {
    let mut lexer = Lexer::new(source);
    let mut parser = Parser::new(&mut lexer)?;
    parser.parse_expression()
}

fn number(n: i64) -> Expr {
    Expr::Number(n)
}

fn ident(name: &str) -> Expr {
    Expr::Ident(name.to_string())
}

fn binop(left: Expr, op: Token, right: Expr) -> Expr {
    Expr::BinOp { left: Box::new(left), op, right: Box::new(right) }
}

fn call(name: &str, object: Option<Expr>, args: Vec<Expr>) -> Expr {
    Expr::FunctionCall { name: name.to_string(), object: object.map(Box::new), args }
}

#[test]
fn a_number_literal_parses_to_its_value() {
    assert_eq!(parse_one_expression("0").unwrap(), number(0));
    assert_eq!(parse_one_expression("42").unwrap(), number(42));
    assert_eq!(parse_one_expression("9223372036854775807").unwrap(), number(i64::MAX));
}

#[test]
fn a_negative_literal_parses_to_the_negated_value() {
    assert_eq!(parse_one_expression("-42").unwrap(), number(-42));
    assert_eq!(parse_one_expression("-0").unwrap(), number(0));
    assert_eq!(parse_one_expression("-9223372036854775807").unwrap(), number(-i64::MAX));
    assert_eq!(parse_one_expression("- 5").unwrap(), number(-5));
    assert_eq!(
        parse_one_expression("1 - -2").unwrap(),
        binop(number(1), Token::Minus, number(-2))
    );
}

#[test]
fn a_doubled_minus_sign_is_a_parse_error() {
    for source in ["- -5", "blud - -5", "x is - - 5", "-cook 5", "-(5)"] {
        let outcome = if source.starts_with('-') {
            parse_one_expression(source).map(|_| ())
        } else {
            parse_source(source).map(|_| ())
        };
        assert!(
            matches!(outcome, Err(ParseError::GeneralError { line: 1, .. })),
            "for {:?}: {:?}",
            source,
            outcome
        );
    }
    match parse_one_expression("-\n-5") {
        Err(ParseError::GeneralError { message, .. }) => {
            assert_eq!(message, "Expected a number after '-', found Minus")
        }
        other => panic!("unexpected {:?}", other),
    }
    match parse_one_expression("-\n\n-5") {
        Err(ParseError::GeneralError { line, .. }) => assert_eq!(line, 3),
        other => panic!("unexpected {:?}", other),
    }
}

#[test]
fn negating_anything_but_a_number_is_a_parse_error() {
    match parse_one_expression("-x") {
        Err(ParseError::GeneralError { line, message }) => {
            assert_eq!(line, 1);
            assert_eq!(message, "Expected a number after '-', found Ident(\"x\")");
        }
        other => panic!("unexpected {:?}", other),
    }
    assert!(matches!(
        parse_one_expression("-\"text\""),
        Err(ParseError::GeneralError { .. })
    ));
    assert!(matches!(parse_one_expression("-sigma"), Err(ParseError::GeneralError { .. })));
    assert!(matches!(parse_one_expression("-[1]"), Err(ParseError::GeneralError { .. })));
}

#[test]
fn literals_of_every_kind() {
    assert_eq!(parse_one_expression("sigma").unwrap(), Expr::Boolean(true));
    assert_eq!(parse_one_expression("ohio").unwrap(), Expr::Boolean(false));
    assert_eq!(
        parse_one_expression("\"hi\"").unwrap(),
        Expr::StringLiteral("hi".to_string())
    );
    assert_eq!(parse_one_expression("x").unwrap(), ident("x"));
}

#[test]
fn multiplication_binds_tighter_than_addition() {
    assert_eq!(
        parse_one_expression("1 + 2 * 3").unwrap(),
        binop(number(1), Token::Plus, binop(number(2), Token::Star, number(3)))
    );
    assert_eq!(
        parse_one_expression("1 * 2 + 3").unwrap(),
        binop(binop(number(1), Token::Star, number(2)), Token::Plus, number(3))
    );
    assert_eq!(
        parse_one_expression("8 / 4 - 1").unwrap(),
        binop(binop(number(8), Token::Slash, number(4)), Token::Minus, number(1))
    );
}

#[test]
fn operators_group_to_the_left() {
    assert_eq!(
        parse_one_expression("1 - 2 - 3").unwrap(),
        binop(binop(number(1), Token::Minus, number(2)), Token::Minus, number(3))
    );
    assert_eq!(
        parse_one_expression("8 / 4 / 2").unwrap(),
        binop(binop(number(8), Token::Slash, number(4)), Token::Slash, number(2))
    );
}

#[test]
fn equality_binds_loosest_and_comparison_as_addition() {
    assert_eq!(
        parse_one_expression("1 + 2 rizz 3").unwrap(),
        binop(binop(number(1), Token::Plus, number(2)), Token::Rizz, number(3))
    );
    assert_eq!(
        parse_one_expression("3 rizz 1 + 2").unwrap(),
        binop(number(3), Token::Rizz, binop(number(1), Token::Plus, number(2)))
    );
    assert_eq!(
        parse_one_expression("1 < 2 + 3").unwrap(),
        binop(binop(number(1), Token::LessThan, number(2)), Token::Plus, number(3))
    );
    assert_eq!(
        parse_one_expression("x > 0").unwrap(),
        binop(ident("x"), Token::GreaterThan, number(0))
    );
}

#[test]
fn precedence_of_each_operator() {
    let mut lexer = Lexer::new("");
    let parser = Parser::new(&mut lexer).unwrap();
    assert_eq!(parser.get_precedence(&Token::Rizz), Some(0));
    assert_eq!(parser.get_precedence(&Token::Plus), Some(1));
    assert_eq!(parser.get_precedence(&Token::Minus), Some(1));
    assert_eq!(parser.get_precedence(&Token::GreaterThan), Some(1));
    assert_eq!(parser.get_precedence(&Token::LessThan), Some(1));
    assert_eq!(parser.get_precedence(&Token::Star), Some(2));
    assert_eq!(parser.get_precedence(&Token::Slash), Some(2));
    assert_eq!(parser.get_precedence(&Token::Dot), None);
    assert_eq!(parser.get_precedence(&Token::EOF), None);
}

#[test]
fn list_literals() {
    assert_eq!(parse_one_expression("[]").unwrap(), Expr::List(vec![]));
    assert_eq!(
        parse_one_expression("[1, x, 2 + 3]").unwrap(),
        Expr::List(vec![number(1), ident("x"), binop(number(2), Token::Plus, number(3))])
    );
    assert_eq!(parse_one_expression("[1, 2,]").unwrap(), Expr::List(vec![number(1), number(2)]));
    assert!(matches!(
        parse_one_expression("[1 2]"),
        Err(ParseError::UnexpectedToken { expected: Token::RightBracket, .. })
    ));
}

#[test]
fn calls_with_and_without_a_receiver() {
    assert_eq!(parse_one_expression("f()").unwrap(), call("f", None, vec![]));
    assert_eq!(
        parse_one_expression("f(1, x)").unwrap(),
        call("f", None, vec![number(1), ident("x")])
    );
    assert_eq!(
        parse_one_expression("a.f(1)").unwrap(),
        call("f", Some(ident("a")), vec![number(1)])
    );
    assert_eq!(
        parse_one_expression("a.b").unwrap(),
        Expr::ObjectValue { object: Some(Box::new(ident("a"))), name: "b".to_string() }
    );
    assert_eq!(
        parse_one_expression("a.b.f()").unwrap(),
        call(
            "f",
            Some(Expr::ObjectValue { object: Some(Box::new(ident("a"))), name: "b".to_string() }),
            vec![]
        )
    );
    assert!(matches!(
        parse_one_expression("a.1"),
        Err(ParseError::UnexpectedToken { expected: Token::Ident(_), found: Token::Number(1), .. })
    ));
}

#[test]
fn instantiation() {
    assert_eq!(
        parse_one_expression("new Cat()").unwrap(),
        Expr::NewInstance { class_name: "Cat".to_string(), args: vec![] }
    );
    assert_eq!(
        parse_one_expression("new Cat(1, 2)").unwrap(),
        Expr::NewInstance { class_name: "Cat".to_string(), args: vec![number(1), number(2)] }
    );
    assert_eq!(
        parse_one_expression("new Cat(1 2)").unwrap(),
        Expr::NewInstance { class_name: "Cat".to_string(), args: vec![number(1), number(2)] }
    );
    match parse_one_expression("new 5") {
        Err(ParseError::GeneralError { message, .. }) => {
            assert_eq!(message, "Expected class name after 'new'")
        }
        other => panic!("unexpected {:?}", other),
    }
}

#[test]
fn a_function_declaration() {
    assert_eq!(
        parse_source("cookable mew() blud 1 + 2 slay").unwrap(),
        vec![Stmt::Function {
            name: "mew".to_string(),
            body: vec![Stmt::Return {
                value: binop(number(1), Token::Plus, number(2)),
                line: 1
            }],
            line: 1,
        }]
    );
}

#[test]
fn statements_carry_the_line_on_which_they_start() {
    let program = parse_source("cookable mew()\n  x is 1\n\n  blud x\nslay\ngyatt nerd").unwrap();
    assert_eq!(
        program,
        vec![
            Stmt::Function {
                name: "mew".to_string(),
                body: vec![
                    Stmt::VariableAssign {
                        name: "x".to_string(),
                        object: None,
                        value: number(1),
                        line: 2
                    },
                    Stmt::Return { value: ident("x"), line: 4 },
                ],
                line: 1,
            },
            Stmt::Import { library: "nerd".to_string(), line: 6 },
        ]
    );
}

#[test]
fn a_class_needs_a_constructor() {
    let program = parse_source("pookie Cat() cookable __edge__() slay cookable purr() slay slay");
    assert_eq!(
        program.unwrap(),
        vec![Stmt::Class {
            name: "Cat".to_string(),
            functions: vec![
                Stmt::Function { name: "__edge__".to_string(), body: vec![], line: 1 },
                Stmt::Function { name: "purr".to_string(), body: vec![], line: 1 },
            ],
            line: 1,
        }]
    );
    match parse_source("pookie Cat()\ncookable purr() slay\nslay\ncookable mew() x is new Cat() slay")
    {
        Err(ParseError::GeneralError { line, message }) => {
            assert_eq!(line, 3);
            assert_eq!(message, "Class must have an __edge__ method");
        }
        other => panic!("unexpected {:?}", other),
    }
    match parse_source("pookie 5") {
        Err(ParseError::GeneralError { message, .. }) => assert_eq!(message, "Expected class name"),
        other => panic!("unexpected {:?}", other),
    }
    assert!(matches!(
        parse_source("pookie Cat() x is 1 slay"),
        Err(ParseError::UnexpectedToken { expected: Token::Cookable, .. })
    ));
}

#[test]
fn assignments() {
    assert_eq!(
        parse_source("x is 5").unwrap(),
        vec![Stmt::VariableAssign {
            name: "x".to_string(),
            object: None,
            value: number(5),
            line: 1
        }]
    );
    assert_eq!(
        parse_source("self.x is 5").unwrap(),
        vec![Stmt::VariableAssign {
            name: "x".to_string(),
            object: Some(Box::new(ident("self"))),
            value: number(5),
            line: 1
        }]
    );
    match parse_source("a.5 is 1") {
        Err(ParseError::GeneralError { message, .. }) => {
            assert_eq!(message, "Expected identifier after 'self.'")
        }
        other => panic!("unexpected {:?}", other),
    }
    assert_eq!(
        parse_source("x 5").unwrap(),
        vec![Stmt::Expression { value: number(5), line: 1 }]
    );
}

#[test]
fn cook_statements() {
    assert_eq!(
        parse_source("cook yap(\"hi\", 1)").unwrap(),
        vec![Stmt::Expression {
            value: call(
                "yap",
                None,
                vec![Expr::StringLiteral("hi".to_string()), number(1)]
            ),
            line: 1
        }]
    );
    assert_eq!(
        parse_source("cook nerd.randInt(1, 6)").unwrap(),
        vec![Stmt::Expression {
            value: call("randInt", Some(ident("nerd")), vec![number(1), number(6)]),
            line: 1
        }]
    );
    assert_eq!(
        parse_source("cook f").unwrap(),
        vec![Stmt::Expression { value: ident("f"), line: 1 }]
    );
    assert!(matches!(
        parse_source("cook a.b"),
        Err(ParseError::UnexpectedToken { expected: Token::LeftParen, found: Token::EOF, .. })
    ));
    assert!(matches!(
        parse_source("cook a.1"),
        Err(ParseError::UnexpectedToken { expected: Token::Ident(_), .. })
    ));
    match parse_source("cook 5") {
        Err(ParseError::GeneralError { message, .. }) => assert_eq!(
            message,
            "Expected a function or object name after 'cook', but found: Number(5)"
        ),
        other => panic!("unexpected {:?}", other),
    }
}

#[test]
fn loops_and_conditionals() {
    assert_eq!(
        parse_source("skibidi (x > 0) do x is x - 1 slay").unwrap(),
        vec![Stmt::While {
            condition: binop(ident("x"), Token::GreaterThan, number(0)),
            body: vec![Stmt::VariableAssign {
                name: "x".to_string(),
                object: None,
                value: binop(ident("x"), Token::Minus, number(1)),
                line: 1
            }],
            line: 1,
        }]
    );
    assert_eq!(
        parse_source("sus (sigma) then blud 1 ick blud 2 slay").unwrap(),
        vec![Stmt::If {
            condition: Expr::Boolean(true),
            then_branch: vec![Stmt::Return { value: number(1), line: 1 }],
            else_branch: Some(vec![Stmt::Return { value: number(2), line: 1 }]),
            line: 1,
        }]
    );
    assert_eq!(
        parse_source("sus (ohio) then ghost slay").unwrap(),
        vec![Stmt::If {
            condition: Expr::Boolean(false),
            then_branch: vec![Stmt::Continue { line: 1 }],
            else_branch: None,
            line: 1,
        }]
    );
    assert_eq!(
        parse_source("goon (i in [1, 2]) do cook f() slay").unwrap(),
        vec![Stmt::ForLoop {
            iterator: "i".to_string(),
            collection: Expr::List(vec![number(1), number(2)]),
            body: vec![Stmt::Expression { value: call("f", None, vec![]), line: 1 }],
            line: 1,
        }]
    );
}

#[test]
fn a_loop_over_anything_but_a_list_literal_is_refused() {
    match parse_source("goon (i in items) do slay") {
        Err(ParseError::GeneralError { message, line }) => {
            assert_eq!(message, "Expected list after 'in'");
            assert_eq!(line, 1);
        }
        other => panic!("unexpected {:?}", other),
    }
    match parse_source("goon (5 in [1]) do slay") {
        Err(ParseError::GeneralError { message, .. }) => {
            assert_eq!(message, "Expected iterator variable name")
        }
        other => panic!("unexpected {:?}", other),
    }
}

#[test]
fn blocks_need_their_closing_keyword() {
    assert!(matches!(
        parse_source("cookable mew() blud 1"),
        Err(ParseError::UnexpectedToken { expected: Token::Slay, found: Token::EOF, line: 1 })
    ));
    assert!(matches!(
        parse_source("skibidi (sigma) do"),
        Err(ParseError::UnexpectedToken { expected: Token::Slay, found: Token::EOF, .. })
    ));
    assert!(matches!(
        parse_source("sus (sigma) blud 1 slay"),
        Err(ParseError::UnexpectedToken { expected: Token::Then, found: Token::Blud, .. })
    ));
}

#[test]
fn a_token_that_starts_no_statement_is_refused() {
    match parse_source("x is 1\n)") {
        Err(ParseError::UnknownUnexpectedToken { found, line }) => {
            assert_eq!(found, Token::RightParen);
            assert_eq!(line, 2);
        }
        other => panic!("unexpected {:?}", other),
    }
    assert!(matches!(
        parse_one_expression(")"),
        Err(ParseError::UnknownUnexpectedToken { found: Token::RightParen, line: 1 })
    ));
}

#[test]
fn imports() {
    assert_eq!(
        parse_source("gyatt skui").unwrap(),
        vec![Stmt::Import { library: "skui".to_string(), line: 1 }]
    );
    match parse_source("gyatt \"skui\"") {
        Err(ParseError::GeneralError { message, .. }) => assert_eq!(
            message,
            "Expected a library name after 'gyatt', found StringLiteral(\"skui\")"
        ),
        other => panic!("unexpected {:?}", other),
    }
    match parse_source("cookable 5") {
        Err(ParseError::GeneralError { message, .. }) => {
            assert_eq!(message, "found token: Number(5), expected function name")
        }
        other => panic!("unexpected {:?}", other),
    }
}

#[test]
fn a_lexer_error_stops_the_parser() {
    assert!(matches!(
        parse_source("x is 1 ?"),
        Err(ParseError::LexerUnexpectedChar { line: 1, .. })
    ));
    let mut lexer = Lexer::new("?");
    assert!(matches!(Parser::new(&mut lexer), Err(ParseError::LexerUnexpectedChar { .. })));
}

#[test]
fn expect_token_steps_over_the_expected_token_only() {
    let mut lexer = Lexer::new("( )");
    let mut parser = Parser::new(&mut lexer).unwrap();
    assert!(parser.expect_token(Token::LeftParen).is_ok());
    match parser.expect_token(Token::LeftParen) {
        Err(ParseError::UnexpectedToken { expected, found, line }) => {
            assert_eq!(expected, Token::LeftParen);
            assert_eq!(found, Token::RightParen);
            assert_eq!(line, 1);
        }
        other => panic!("unexpected {:?}", other),
    }
    assert!(parser.next_token().is_ok());
    assert!(parser.parse_block(Until::End).unwrap().is_empty());
}

#[test]
fn each_statement_parser_on_its_own_input() {
    let mut lexer = Lexer::new("blud 1 ghost gyatt nerd cookable f() slay");
    let mut parser = Parser::new(&mut lexer).unwrap();
    assert_eq!(parser.parse_return().unwrap(), Stmt::Return { value: number(1), line: 1 });
    assert_eq!(parser.parse_continue().unwrap(), Stmt::Continue { line: 1 });
    assert_eq!(
        parser.parse_import_statement().unwrap(),
        Stmt::Import { library: "nerd".to_string(), line: 1 }
    );
    assert_eq!(
        parser.parse_statement().unwrap(),
        Stmt::Function { name: "f".to_string(), body: vec![], line: 1 }
    );
    assert!(parser.parse().unwrap().is_empty());
}

#[test]
fn expressions_and_statements_compare_by_value() {
    assert!(number(1).same(&number(1)));
    assert!(!number(1).same(&ident("x")));
    assert_eq!(number(1).clone(), number(1));
    let stmt = Stmt::Return { value: Expr::List(vec![number(1), ident("x")]), line: 3 };
    assert_eq!(stmt.clone(), stmt);
    assert!(stmt != Stmt::Return { value: Expr::List(vec![number(1)]), line: 3 });
    assert!(stmt != Stmt::Return { value: Expr::List(vec![number(1), ident("x")]), line: 4 });
}
