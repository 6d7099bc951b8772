use skibidi::ast::Expr;
use skibidi::error::ParseError;
use skibidi::libs::apel::Apel;
use skibidi::libs::skui::clock::Clock;
use skibidi::libs::skui::utils::hex_to_rgba;
use skibidi::libs::skui::window::{draw_rect, fill_frame};
use skibidi::libs::{load_library, NativeFunction, ParamKind};
use skibidi::text::{
    char_is_ascii_letter, char_is_digit, char_is_whitespace, chars_of, integer_to_string,
    parse_integer, spells, string_from_chars, trim, unsigned_to_string,
};
use skibidi::token::Token;

#[test]
fn decimal_text_of_integers() {
    assert_eq!(integer_to_string(0), "0");
    assert_eq!(integer_to_string(7), "7");
    assert_eq!(integer_to_string(10), "10");
    assert_eq!(integer_to_string(-10), "-10");
    assert_eq!(integer_to_string(1234567890), "1234567890");
    assert_eq!(integer_to_string(i64::MAX), i64::MAX.to_string());
    assert_eq!(integer_to_string(i64::MIN), i64::MIN.to_string());
    assert_eq!(unsigned_to_string(u64::MAX), u64::MAX.to_string());
    assert_eq!(unsigned_to_string(0), "0");
}

#[test]
fn reading_integers_agrees_with_the_standard_library() {
    for text in [
        "0", "7", "-7", "+7", "007", "-0", "9223372036854775807", "-9223372036854775808",
        "9223372036854775808", "-9223372036854775809", "", "-", "+", "1a", " 1", "1 ", "--1",
        "+-1", "١٢", "18446744073709551616", "99999999999999999999999",
    ] {
        assert_eq!(parse_integer(text), text.parse::<i64>().ok(), "for {:?}", text);
    }
}

#[test]
fn trimming_agrees_with_the_standard_library() {
    for text in ["", " ", "a", "  a  ", "\t\na b\r\n", "\u{a0}x\u{2003}", "x  y", "   "] {
        assert_eq!(trim(text), text.trim(), "for {:?}", text);
    }
}

#[test]
fn characters_and_words() {
    let v = chars_of("héllo wörld");
    assert_eq!(v.len(), 11);
    assert_eq!(v[1], 'é');
    assert_eq!(string_from_chars(&v, 6, 11), "wörld");
    assert_eq!(string_from_chars(&v, 3, 3), "");
    assert!(spells(&v, 0, 5, "héllo"));
    assert!(!spells(&v, 0, 5, "hello"));
    assert!(!spells(&v, 0, 4, "héllo"));
    assert!(char_is_digit('0') && char_is_digit('9'));
    assert!(!char_is_digit('a') && !char_is_digit('٣') && !char_is_digit('/') && !char_is_digit(':'));
}

#[test]
fn colours() {
    assert_eq!(hex_to_rgba("#ff8000", 1).unwrap(), [255, 128, 0, 255]);
    assert_eq!(hex_to_rgba("FF8000", 1).unwrap(), [255, 128, 0, 255]);
    assert_eq!(hex_to_rgba("###0a0B0c", 1).unwrap(), [10, 11, 12, 255]);
    assert_eq!(hex_to_rgba("#+f+0+a", 1).unwrap(), [15, 0, 10, 255]);
    let failures = [
        ("", "Invalid hex color"),
        ("#fff", "Invalid hex color"),
        ("#ff80000", "Invalid hex color"),
        ("#gg8000", "Invalid red value in hex color"),
        ("#ff-100", "Invalid green value in hex color"),
        ("#ff80 0", "Invalid blue value in hex color"),
        ("#f+8000", "Invalid red value in hex color"),
    ];
    for (text, expected) in failures {
        match hex_to_rgba(text, 9) {
            Err(ParseError::GeneralError { line, message }) => {
                assert_eq!(line, 9);
                assert_eq!(message, expected, "for {:?}", text);
            }
            other => panic!("unexpected {:?} for {:?}", other, text),
        }
    }
}

#[test]
fn the_frame_clock() {
    let mut clock = Clock::default();
    assert_eq!(clock.target_frame_nanos, 16_666_666);
    assert_eq!(clock.last_frame_millis, 0);
    assert_eq!(clock.wait_for(0), 16_666_666);
    assert_eq!(clock.wait_for(10), 6_666_666);
    assert_eq!(clock.wait_for(16), 666_666);
    assert_eq!(clock.wait_for(17), 0);
    assert_eq!(clock.tick(20), 20);
    assert_eq!(clock.last_frame_millis, 20);
    assert_eq!(clock.wait_for(10), 16_666_666);
    assert_eq!(clock.tick(5), 0);
    assert!(clock.set_fps(30));
    assert_eq!(clock.target_frame_nanos, 33_333_333);
    assert!(!clock.set_fps(0));
    assert_eq!(clock.target_frame_nanos, 33_333_333);
    assert!(clock.set_fps(u32::MAX));
    assert_eq!(clock.target_frame_nanos, 0);
    assert_eq!(clock.wait_for(5), 0);
}

#[test]
fn the_animation_bounces_between_the_walls() {
    let mut apel = Apel::new();
    assert_eq!(apel, Apel { x_pos: 0, y_pos: 0, x_dir: 1, y_dir: 1 });
    apel.bounce();
    assert_eq!(apel, Apel { x_pos: 1, y_pos: 1, x_dir: 1, y_dir: 1 });
    for _ in 0..9 {
        apel.bounce();
    }
    assert_eq!(apel, Apel { x_pos: 10, y_pos: 10, x_dir: 1, y_dir: -1 });
    for _ in 0..30 {
        apel.bounce();
    }
    assert_eq!(apel, Apel { x_pos: 40, y_pos: 0, x_dir: -1, y_dir: 1 });
    for _ in 0..1000 {
        apel.bounce();
        assert!((0..=40).contains(&apel.x_pos) && (0..=10).contains(&apel.y_pos));
    }
    let mut lost = Apel { x_pos: 500, y_pos: -3, x_dir: 7, y_dir: 0 };
    lost.bounce();
    assert_eq!(lost, Apel { x_pos: 1, y_pos: 1, x_dir: 1, y_dir: 1 });
    let at = Apel { x_pos: 3, y_pos: 2, x_dir: 1, y_dir: 1 };
    assert_eq!(at.frame("@"), "\n\n   @");
    assert_eq!(Apel::new().frame("@"), "@");
}

#[test]
fn libraries_and_their_functions() {
    let nerd = load_library(&"nerd".to_string()).unwrap();
    assert_eq!(nerd.functions.get("randInt"), Some(&NativeFunction::RandInt));
    assert_eq!(nerd.functions.len(), 1);
    let skui = load_library(&"skui".to_string()).unwrap();
    assert_eq!(skui.functions.len(), 5);
    assert_eq!(skui.functions.get("createWindow"), Some(&NativeFunction::CreateWindow));
    assert_eq!(skui.functions.get("goonScreen"), Some(&NativeFunction::GoonScreen));
    let apel = load_library(&"apel".to_string()).unwrap();
    assert_eq!(apel.functions.get("spawnTheApel"), Some(&NativeFunction::SpawnTheApel));
    assert!(load_library(&"Nerd".to_string()).is_none());
    assert!(load_library(&String::new()).is_none());
    assert_eq!(NativeFunction::RandInt.arity(), 2);
    assert_eq!(NativeFunction::CreateWindow.arity(), 3);
    assert_eq!(NativeFunction::CreateWindow.kind(1), ParamKind::Number);
    assert_eq!(NativeFunction::CreateWindow.kind(2), ParamKind::Text);
    assert_eq!(NativeFunction::GoonScreen.kind(0), ParamKind::Text);
    assert!(NativeFunction::PumpEvents.ignores_arguments());
    assert!(!NativeFunction::RandInt.ignores_arguments());
}

#[test]
fn messages_of_errors() {
    let cases = [
        (
            ParseError::UnexpectedToken {
                expected: Token::Slay,
                found: Token::Ident("x".to_string()),
                line: 12,
            },
            "on line 12: Expected token: Slay, but found token: Ident(\"x\")",
        ),
        (
            ParseError::UnknownUnexpectedToken { found: Token::Number(3), line: 1 },
            "on line 1: found token: Number(3), but it's not expected",
        ),
        (
            ParseError::UnknownFunction { name: "f".to_string(), line: 7 },
            "on line 7: unknown function: f",
        ),
        (
            ParseError::UnknownVariable { name: "v".to_string(), line: 8 },
            "on line 8: unknown variable: v",
        ),
        (ParseError::DivisionByZero { line: 100 }, "on line 100: division by zero"),
        (
            ParseError::GeneralError { line: 0, message: "broken".to_string() },
            "on line 0: broken",
        ),
        (
            ParseError::LexerUnexpectedChar { found: "\"".to_string(), line: 2 },
            "on line 2: found token \"\\\"\", but it's not expected",
        ),
        (
            ParseError::ArgumentMismatch { expected: 2, found: 10, line: 3 },
            "on line 3: expected 2 arguments, but found 10",
        ),
        (
            ParseError::TypeError {
                expected: Expr::Number(-1),
                found: Expr::Boolean(true),
                line: 4,
            },
            "on line 4: expected type Number(-1), but found type Boolean(true)",
        ),
        (ParseError::Other("odd".to_string()), "Parse error: odd"),
    ];
    for (error, expected) in cases {
        assert_eq!(error.message(), expected);
    }
}

#[test]
fn filling_a_frame_colours_every_whole_pixel() {
    let mut frame = vec![9u8; 10];
    fill_frame(&mut frame, [1, 2, 3, 4]);
    assert_eq!(frame, vec![1, 2, 3, 4, 1, 2, 3, 4, 9, 9]);
    let mut empty: Vec<u8> = Vec::new();
    fill_frame(&mut empty, [1, 2, 3, 4]);
    assert!(empty.is_empty());
    let mut short = vec![7u8; 3];
    fill_frame(&mut short, [1, 2, 3, 4]);
    assert_eq!(short, vec![7, 7, 7]);
}

fn painted(frame: &[u8], width: usize) -> Vec<(usize, usize)> {
    let mut pixels = Vec::new();
    for (i, pixel) in frame.chunks(4).enumerate() {
        if pixel == [1, 2, 3, 4] {
            pixels.push((i % width, i / width));
        } else {
            assert!(pixel.iter().all(|b| *b == 0), "pixel {} is {:?}", i, pixel);
        }
    }
    pixels
}

#[test]
fn drawing_a_square_paints_the_pixels_inside_the_window() {
    let colour = [1, 2, 3, 4];
    let mut frame = vec![0u8; 4 * 3 * 4];
    draw_rect(&mut frame, 4, 3, 2, 1, 1, colour);
    assert_eq!(painted(&frame, 4), vec![(1, 1), (2, 1), (1, 2), (2, 2)]);

    let mut frame = vec![0u8; 4 * 3 * 4];
    draw_rect(&mut frame, 4, 3, 2, -1, -1, colour);
    assert_eq!(painted(&frame, 4), vec![(0, 0)]);

    let mut frame = vec![0u8; 4 * 3 * 4];
    draw_rect(&mut frame, 4, 3, 5, 3, 2, colour);
    assert_eq!(painted(&frame, 4), vec![(3, 2)]);

    let mut frame = vec![0u8; 4 * 3 * 4];
    draw_rect(&mut frame, 4, 3, 100, -50, -50, colour);
    assert_eq!(painted(&frame, 4).len(), 12);

    for (size, x, y) in [(0, 1, 1), (-3, 1, 1), (2, 4, 0), (2, 0, 3), (2, i64::MAX, 0), (i64::MAX, i64::MAX, i64::MAX), (5, i64::MIN, i64::MIN)] {
        let mut frame = vec![0u8; 4 * 3 * 4];
        draw_rect(&mut frame, 4, 3, size, x, y, colour);
        assert!(painted(&frame, 4).is_empty(), "for {:?}", (size, x, y));
    }

    let mut frame = vec![0u8; 4 * 3 * 4];
    draw_rect(&mut frame, 0, 3, 2, 0, 0, colour);
    assert!(frame.iter().all(|b| *b == 0));

    let mut short = vec![0u8; 4 * 4 + 6];
    draw_rect(&mut short, 4, 3, 4, 0, 0, colour);
    assert_eq!(&short[..20], &[1, 2, 3, 4, 1, 2, 3, 4, 1, 2, 3, 4, 1, 2, 3, 4, 1, 2, 3, 4][..]);
    assert_eq!(&short[20..], &[0, 0][..]);
}

#[test]
fn the_text_of_a_token_is_what_debug_formatting_writes() {
    let tokens = vec![
        Token::Cookable,
        Token::Cook,
        Token::Is,
        Token::Skibidi,
        Token::Sigma,
        Token::NewLine,
        Token::Ohio,
        Token::Suspect,
        Token::Then,
        Token::Do,
        Token::Slay,
        Token::Rizz,
        Token::Blud,
        Token::GhostKeyword,
        Token::Ick,
        Token::Gyatt,
        Token::Goon,
        Token::In,
        Token::Pookie,
        Token::SelfKeyword,
        Token::New,
        Token::Ident("x".to_string()),
        Token::Ident(String::new()),
        Token::Number(0),
        Token::Number(-17),
        Token::Number(i64::MIN),
        Token::StringLiteral("a \"quoted\" \\ line\n\ttab é \u{7f}".to_string()),
        Token::LeftParen,
        Token::RightParen,
        Token::LeftBracket,
        Token::RightBracket,
        Token::Comma,
        Token::Plus,
        Token::Minus,
        Token::Star,
        Token::Slash,
        Token::GreaterThan,
        Token::LessThan,
        Token::Dot,
        Token::EOF,
    ];
    for token in tokens {
        assert_eq!(token.debug(), format!("{:?}", token));
    }
    assert_eq!(Token::Ident("x".to_string()).debug(), "Ident(\"x\")");
    assert_eq!(Token::Slay.debug(), "Slay");
}

#[test]
fn the_text_of_an_expression_is_what_debug_formatting_writes() {
    let call = Expr::FunctionCall {
        name: "f".to_string(),
        object: Some(Box::new(Expr::Ident("o".to_string()))),
        args: vec![Expr::Number(1), Expr::Boolean(false), Expr::List(vec![])],
    };
    let expressions = vec![
        Expr::Ident("x".to_string()),
        Expr::Number(-1),
        Expr::StringLiteral("say \"hi\"\n".to_string()),
        Expr::Boolean(true),
        Expr::Boolean(false),
        Expr::List(vec![]),
        Expr::List(vec![Expr::Number(1)]),
        Expr::List(vec![Expr::Number(1), Expr::Number(2), Expr::List(vec![Expr::Number(3)])]),
        Expr::FunctionCall { name: "f".to_string(), object: None, args: vec![] },
        call.clone(),
        Expr::BinOp {
            left: Box::new(Expr::Number(1)),
            op: Token::Plus,
            right: Box::new(call.clone()),
        },
        Expr::ObjectValue { object: Some(Box::new(call.clone())), name: "field".to_string() },
        Expr::ObjectValue { object: None, name: "field".to_string() },
        Expr::NewInstance { class_name: "C".to_string(), args: vec![call.clone(), call] },
        Expr::Instance { class_name: "C".to_string(), instance_id: 12 },
        Expr::Instance { class_name: "C".to_string(), instance_id: usize::MAX },
    ];
    for expression in expressions {
        assert_eq!(expression.debug(), format!("{:?}", expression));
    }
    assert_eq!(
        Expr::BinOp {
            left: Box::new(Expr::Number(1)),
            op: Token::Plus,
            right: Box::new(Expr::Number(2)),
        }
        .debug(),
        "BinOp { left: Number(1), op: Plus, right: Number(2) }"
    );
}

#[test]
fn whitespace_is_what_the_standard_library_says_of_every_character() {
    let mut count = 0;
    for code in 0..=0x10FFFFu32 {
        if let Some(c) = char::from_u32(code) {
            assert_eq!(char_is_whitespace(c), c.is_whitespace(), "for U+{:04X}", code);
            if char_is_whitespace(c) {
                count += 1;
            }
        }
    }
    assert_eq!(count, 25);
}

#[test]
fn of_the_ascii_characters_the_letters_are_alphabetic_and_with_the_digits_alphanumeric() {
    for code in 0..128u32 {
        let c = char::from_u32(code).unwrap();
        assert_eq!(c.is_alphabetic(), char_is_ascii_letter(c), "for U+{:04X}", code);
        assert_eq!(
            c.is_alphanumeric(),
            char_is_ascii_letter(c) || char_is_digit(c),
            "for U+{:04X}",
            code
        );
    }
    assert!(char_is_ascii_letter('a') && char_is_ascii_letter('Z'));
    assert!(!char_is_ascii_letter('_') && !char_is_ascii_letter('é') && !char_is_ascii_letter('5'));
}
