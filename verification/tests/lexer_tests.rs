use skibidi::error::ParseError;
use skibidi::lexer::Lexer;
use skibidi::token::Token;

fn all_tokens(source: &str) -> Vec<Token> {
    let mut lexer = Lexer::new(source);
    let mut tokens = Vec::new();
    loop {
        let token = lexer.next_token().expect("the source lexes");
        let done = token == Token::EOF;
        tokens.push(token);
        if done {
            return tokens;
        }
    }
}

#[test]
fn empty_input_is_the_end() {
    assert_eq!(all_tokens(""), vec![Token::EOF]);
    assert_eq!(all_tokens("   \n\t "), vec![Token::EOF]);
}

#[test]
fn keywords_are_recognised() {
    assert_eq!(
        all_tokens("cookable cook is skibidi sigma ohio sus then do slay rizz blud ghost ick gyatt goon in pookie new"),
        vec![
            Token::Cookable,
            Token::Cook,
            Token::Is,
            Token::Skibidi,
            Token::Sigma,
            Token::Ohio,
            Token::Suspect,
            Token::Then,
            Token::Do,
            Token::Slay,
            Token::Rizz,
            Token::Blud,
            Token::GhostKeyword,
            Token::Ick,
            Token::Gyatt,
            Token::Goon,
            Token::In,
            Token::Pookie,
            Token::New,
            Token::EOF,
        ]
    );
}

#[test]
fn identifiers_are_not_cut_at_keywords() {
    assert_eq!(
        all_tokens("cooked _x x1 self mew"),
        vec![
            Token::Ident("cooked".to_string()),
            Token::Ident("_x".to_string()),
            Token::Ident("x1".to_string()),
            Token::Ident("self".to_string()),
            Token::Ident("mew".to_string()),
            Token::EOF,
        ]
    );
}

#[test]
fn punctuation_and_operators() {
    assert_eq!(
        all_tokens("( ) [ ] , . + - * / > <"),
        vec![
            Token::LeftParen,
            Token::RightParen,
            Token::LeftBracket,
            Token::RightBracket,
            Token::Comma,
            Token::Dot,
            Token::Plus,
            Token::Minus,
            Token::Star,
            Token::Slash,
            Token::GreaterThan,
            Token::LessThan,
            Token::EOF,
        ]
    );
}

#[test]
fn numbers_have_their_value() {
    assert_eq!(
        all_tokens("0 7 42 9223372036854775807"),
        vec![
            Token::Number(0),
            Token::Number(7),
            Token::Number(42),
            Token::Number(i64::MAX),
            Token::EOF,
        ]
    );
}

#[test]
fn a_number_too_large_is_an_error() {
    let mut lexer = Lexer::new("\n9223372036854775808");
    match lexer.next_token() {
        Err(ParseError::GeneralError { line, message }) => {
            assert_eq!(line, 2);
            assert_eq!(message, "Integer literal out of range");
        }
        other => panic!("unexpected {:?}", other),
    }
}

#[test]
fn a_minus_alone_is_an_operator_and_two_start_a_comment() {
    assert_eq!(
        all_tokens("1 - 2 -- the rest - is ignored\n3"),
        vec![
            Token::Number(1),
            Token::Minus,
            Token::Number(2),
            Token::Number(3),
            Token::EOF,
        ]
    );
    assert_eq!(all_tokens("-"), vec![Token::Minus, Token::EOF]);
    assert_eq!(all_tokens("--"), vec![Token::EOF]);
}

#[test]
fn strings_end_at_the_next_quote_or_at_the_end() {
    assert_eq!(
        all_tokens("\"hello world\" \"\" \"open"),
        vec![
            Token::StringLiteral("hello world".to_string()),
            Token::StringLiteral(String::new()),
            Token::StringLiteral("open".to_string()),
            Token::EOF,
        ]
    );
}

#[test]
fn lines_are_counted_from_one() {
    let mut lexer = Lexer::new("a\nb -- comment\n\nc \"x\ny\" d");
    assert_eq!(lexer.line(), 1);
    assert_eq!(lexer.next_token().unwrap(), Token::Ident("a".to_string()));
    assert_eq!(lexer.line(), 1);
    assert_eq!(lexer.next_token().unwrap(), Token::Ident("b".to_string()));
    assert_eq!(lexer.line(), 2);
    assert_eq!(lexer.next_token().unwrap(), Token::Ident("c".to_string()));
    assert_eq!(lexer.line(), 4);
    assert_eq!(lexer.next_token().unwrap(), Token::StringLiteral("x\ny".to_string()));
    assert_eq!(lexer.line(), 5);
    assert_eq!(lexer.next_token().unwrap(), Token::Ident("d".to_string()));
    assert_eq!(lexer.next_token().unwrap(), Token::EOF);
    assert_eq!(lexer.next_token().unwrap(), Token::EOF);
}

#[test]
fn an_unknown_character_is_an_error_with_its_line() {
    let mut lexer = Lexer::new("x\n  ?");
    assert_eq!(lexer.next_token().unwrap(), Token::Ident("x".to_string()));
    match lexer.next_token() {
        Err(ParseError::LexerUnexpectedChar { found, line }) => {
            assert_eq!(found, "?");
            assert_eq!(line, 2);
        }
        other => panic!("unexpected {:?}", other),
    }
}

#[test]
fn peeking_does_not_consume() {
    let mut lexer = Lexer::new("ab");
    assert_eq!(lexer.peek_char(), Some('a'));
    assert_eq!(lexer.peek_next_char(), Some('b'));
    assert_eq!(lexer.next_char(), Some('a'));
    assert_eq!(lexer.peek_char(), Some('b'));
    assert_eq!(lexer.peek_next_char(), None);
    assert_eq!(lexer.next_char(), Some('b'));
    assert_eq!(lexer.next_char(), None);
    assert_eq!(lexer.peek_char(), None);
}

#[test]
fn skipping_a_comment_stops_after_the_line_end() {
    let mut lexer = Lexer::new("rest of it\nnext");
    lexer.skip_comment();
    assert_eq!(lexer.line(), 2);
    assert_eq!(lexer.peek_char(), Some('n'));
    let mut lexer = Lexer::new("  \n -- c\n  -x");
    lexer.skip_whitespace();
    assert_eq!(lexer.line(), 3);
    assert_eq!(lexer.peek_char(), Some('-'));
}

#[test]
fn unicode_letters_make_identifiers() {
    assert_eq!(
        all_tokens("größe"),
        vec![Token::Ident("größe".to_string()), Token::EOF]
    );
}

#[test]
fn tokens_compare_by_variant_and_payload() {
    assert!(Token::Ident("a".to_string()).same(&Token::Ident("a".to_string())));
    assert!(!Token::Ident("a".to_string()).same(&Token::Ident("b".to_string())));
    assert!(!Token::Ident("a".to_string()).same(&Token::StringLiteral("a".to_string())));
    assert!(!Token::Number(1).same(&Token::Number(2)));
    assert!(Token::Slay.same(&Token::Slay));
    assert!(!Token::Slay.same(&Token::EOF));
    assert_eq!(Token::Number(3).clone(), Token::Number(3));
}
