use vstd::prelude::*;
use vstd::string::*;
use crate::text::{debug_string, integer_text, integer_to_string, string_debug};

verus! {

/// One lexical unit of the language.
#[derive(Debug)]
pub enum Token {
    Cookable,
    Cook,
    Is,
    Skibidi,
    Sigma,
    NewLine,
    Ohio,
    Suspect,
    Then,
    Do,
    Slay,
    Rizz,
    Blud,
    GhostKeyword,
    Ick,
    Gyatt,
    Goon,
    In,
    Pookie,
    SelfKeyword,
    New,
    Ident(String),
    Number(i64),
    StringLiteral(String),
    LeftParen,
    RightParen,
    LeftBracket,
    RightBracket,
    Comma,
    Plus,
    Minus,
    Star,
    Slash,
    GreaterThan,
    LessThan,
    Dot,
    EOF,
}

/// The mathematical value of a [`Token`]: the same variants, with text as a
/// sequence of characters.
pub enum TokenView {
    Cookable,
    Cook,
    Is,
    Skibidi,
    Sigma,
    NewLine,
    Ohio,
    Suspect,
    Then,
    Do,
    Slay,
    Rizz,
    Blud,
    GhostKeyword,
    Ick,
    Gyatt,
    Goon,
    In,
    Pookie,
    SelfKeyword,
    New,
    Ident(Seq<char>),
    Number(i64),
    StringLiteral(Seq<char>),
    LeftParen,
    RightParen,
    LeftBracket,
    RightBracket,
    Comma,
    Plus,
    Minus,
    Star,
    Slash,
    GreaterThan,
    LessThan,
    Dot,
    EOF,
}

impl View for Token {
    type V = TokenView;

    open spec fn view(&self) -> TokenView {
        match self {
            Token::Cookable => TokenView::Cookable,
            Token::Cook => TokenView::Cook,
            Token::Is => TokenView::Is,
            Token::Skibidi => TokenView::Skibidi,
            Token::Sigma => TokenView::Sigma,
            Token::NewLine => TokenView::NewLine,
            Token::Ohio => TokenView::Ohio,
            Token::Suspect => TokenView::Suspect,
            Token::Then => TokenView::Then,
            Token::Do => TokenView::Do,
            Token::Slay => TokenView::Slay,
            Token::Rizz => TokenView::Rizz,
            Token::Blud => TokenView::Blud,
            Token::GhostKeyword => TokenView::GhostKeyword,
            Token::Ick => TokenView::Ick,
            Token::Gyatt => TokenView::Gyatt,
            Token::Goon => TokenView::Goon,
            Token::In => TokenView::In,
            Token::Pookie => TokenView::Pookie,
            Token::SelfKeyword => TokenView::SelfKeyword,
            Token::New => TokenView::New,
            Token::Ident(s) => TokenView::Ident(s@),
            Token::Number(n) => TokenView::Number(*n),
            Token::StringLiteral(s) => TokenView::StringLiteral(s@),
            Token::LeftParen => TokenView::LeftParen,
            Token::RightParen => TokenView::RightParen,
            Token::LeftBracket => TokenView::LeftBracket,
            Token::RightBracket => TokenView::RightBracket,
            Token::Comma => TokenView::Comma,
            Token::Plus => TokenView::Plus,
            Token::Minus => TokenView::Minus,
            Token::Star => TokenView::Star,
            Token::Slash => TokenView::Slash,
            Token::GreaterThan => TokenView::GreaterThan,
            Token::LessThan => TokenView::LessThan,
            Token::Dot => TokenView::Dot,
            Token::EOF => TokenView::EOF,
        }
    }
}

impl Clone for Token {
    fn clone(&self) -> (res: Self)
        ensures
            res@ == self@,
    {
        match self {
            Token::Cookable => Token::Cookable,
            Token::Cook => Token::Cook,
            Token::Is => Token::Is,
            Token::Skibidi => Token::Skibidi,
            Token::Sigma => Token::Sigma,
            Token::NewLine => Token::NewLine,
            Token::Ohio => Token::Ohio,
            Token::Suspect => Token::Suspect,
            Token::Then => Token::Then,
            Token::Do => Token::Do,
            Token::Slay => Token::Slay,
            Token::Rizz => Token::Rizz,
            Token::Blud => Token::Blud,
            Token::GhostKeyword => Token::GhostKeyword,
            Token::Ick => Token::Ick,
            Token::Gyatt => Token::Gyatt,
            Token::Goon => Token::Goon,
            Token::In => Token::In,
            Token::Pookie => Token::Pookie,
            Token::SelfKeyword => Token::SelfKeyword,
            Token::New => Token::New,
            Token::Ident(s) => Token::Ident(s.clone()),
            Token::Number(n) => Token::Number(*n),
            Token::StringLiteral(s) => Token::StringLiteral(s.clone()),
            Token::LeftParen => Token::LeftParen,
            Token::RightParen => Token::RightParen,
            Token::LeftBracket => Token::LeftBracket,
            Token::RightBracket => Token::RightBracket,
            Token::Comma => Token::Comma,
            Token::Plus => Token::Plus,
            Token::Minus => Token::Minus,
            Token::Star => Token::Star,
            Token::Slash => Token::Slash,
            Token::GreaterThan => Token::GreaterThan,
            Token::LessThan => Token::LessThan,
            Token::Dot => Token::Dot,
            Token::EOF => Token::EOF,
        }
    }
}

impl PartialEq for Token {
    fn eq(&self, other: &Token) -> (res: bool) {
        self.same(other)
    }
}

impl vstd::std_specs::cmp::PartialEqSpecImpl for Token {
    open spec fn obeys_eq_spec() -> bool {
        true
    }

    open spec fn eq_spec(&self, other: &Token) -> bool {
        self@ == other@
    }
}

impl TokenView {
    /// The position of a token's variant in the declaration order.
    pub open spec fn rank(self) -> int {
        match self {
            TokenView::Cookable => 0,
            TokenView::Cook => 1,
            TokenView::Is => 2,
            TokenView::Skibidi => 3,
            TokenView::Sigma => 4,
            TokenView::NewLine => 5,
            TokenView::Ohio => 6,
            TokenView::Suspect => 7,
            TokenView::Then => 8,
            TokenView::Do => 9,
            TokenView::Slay => 10,
            TokenView::Rizz => 11,
            TokenView::Blud => 12,
            TokenView::GhostKeyword => 13,
            TokenView::Ick => 14,
            TokenView::Gyatt => 15,
            TokenView::Goon => 16,
            TokenView::In => 17,
            TokenView::Pookie => 18,
            TokenView::SelfKeyword => 19,
            TokenView::New => 20,
            TokenView::Ident(_) => 21,
            TokenView::Number(_) => 22,
            TokenView::StringLiteral(_) => 23,
            TokenView::LeftParen => 24,
            TokenView::RightParen => 25,
            TokenView::LeftBracket => 26,
            TokenView::RightBracket => 27,
            TokenView::Comma => 28,
            TokenView::Plus => 29,
            TokenView::Minus => 30,
            TokenView::Star => 31,
            TokenView::Slash => 32,
            TokenView::GreaterThan => 33,
            TokenView::LessThan => 34,
            TokenView::Dot => 35,
            TokenView::EOF => 36,
        }
    }
}

/// The text that names a token: its variant, and in parentheses what the
/// variant holds, a string in quotes. It is what `{:?}` writes.
#[verifier::opaque]
pub open spec fn token_debug(t: TokenView) -> Seq<char> {
    match t {
        TokenView::Cookable => "Cookable"@,
        TokenView::Cook => "Cook"@,
        TokenView::Is => "Is"@,
        TokenView::Skibidi => "Skibidi"@,
        TokenView::Sigma => "Sigma"@,
        TokenView::NewLine => "NewLine"@,
        TokenView::Ohio => "Ohio"@,
        TokenView::Suspect => "Suspect"@,
        TokenView::Then => "Then"@,
        TokenView::Do => "Do"@,
        TokenView::Slay => "Slay"@,
        TokenView::Rizz => "Rizz"@,
        TokenView::Blud => "Blud"@,
        TokenView::GhostKeyword => "GhostKeyword"@,
        TokenView::Ick => "Ick"@,
        TokenView::Gyatt => "Gyatt"@,
        TokenView::Goon => "Goon"@,
        TokenView::In => "In"@,
        TokenView::Pookie => "Pookie"@,
        TokenView::SelfKeyword => "SelfKeyword"@,
        TokenView::New => "New"@,
        TokenView::LeftParen => "LeftParen"@,
        TokenView::RightParen => "RightParen"@,
        TokenView::LeftBracket => "LeftBracket"@,
        TokenView::RightBracket => "RightBracket"@,
        TokenView::Comma => "Comma"@,
        TokenView::Plus => "Plus"@,
        TokenView::Minus => "Minus"@,
        TokenView::Star => "Star"@,
        TokenView::Slash => "Slash"@,
        TokenView::GreaterThan => "GreaterThan"@,
        TokenView::LessThan => "LessThan"@,
        TokenView::Dot => "Dot"@,
        TokenView::EOF => "EOF"@,
        TokenView::Ident(text) => "Ident("@ + string_debug(text) + ")"@,
        TokenView::Number(n) => "Number("@ + integer_text(n as int) + ")"@,
        TokenView::StringLiteral(text) => "StringLiteral("@ + string_debug(text) + ")"@,
    }
}

impl Token {
    /// The text that names the token.
    pub fn debug(&self) -> (s: String)
        ensures
            s@ == token_debug(self@),
    {
        proof {
            reveal(token_debug);
        }
        match self {
            Token::Cookable => String::from_str("Cookable"),
            Token::Cook => String::from_str("Cook"),
            Token::Is => String::from_str("Is"),
            Token::Skibidi => String::from_str("Skibidi"),
            Token::Sigma => String::from_str("Sigma"),
            Token::NewLine => String::from_str("NewLine"),
            Token::Ohio => String::from_str("Ohio"),
            Token::Suspect => String::from_str("Suspect"),
            Token::Then => String::from_str("Then"),
            Token::Do => String::from_str("Do"),
            Token::Slay => String::from_str("Slay"),
            Token::Rizz => String::from_str("Rizz"),
            Token::Blud => String::from_str("Blud"),
            Token::GhostKeyword => String::from_str("GhostKeyword"),
            Token::Ick => String::from_str("Ick"),
            Token::Gyatt => String::from_str("Gyatt"),
            Token::Goon => String::from_str("Goon"),
            Token::In => String::from_str("In"),
            Token::Pookie => String::from_str("Pookie"),
            Token::SelfKeyword => String::from_str("SelfKeyword"),
            Token::New => String::from_str("New"),
            Token::LeftParen => String::from_str("LeftParen"),
            Token::RightParen => String::from_str("RightParen"),
            Token::LeftBracket => String::from_str("LeftBracket"),
            Token::RightBracket => String::from_str("RightBracket"),
            Token::Comma => String::from_str("Comma"),
            Token::Plus => String::from_str("Plus"),
            Token::Minus => String::from_str("Minus"),
            Token::Star => String::from_str("Star"),
            Token::Slash => String::from_str("Slash"),
            Token::GreaterThan => String::from_str("GreaterThan"),
            Token::LessThan => String::from_str("LessThan"),
            Token::Dot => String::from_str("Dot"),
            Token::EOF => String::from_str("EOF"),
            Token::Ident(text) => {
                let mut s = String::from_str("Ident(");
                s.append(debug_string(text).as_str());
                s.append(")");
                s
            },
            Token::Number(n) => {
                let mut s = String::from_str("Number(");
                s.append(integer_to_string(*n).as_str());
                s.append(")");
                s
            },
            Token::StringLiteral(text) => {
                let mut s = String::from_str("StringLiteral(");
                s.append(debug_string(text).as_str());
                s.append(")");
                s
            },
        }
    }

    /// Decides whether two tokens have the same variant and the same payload.
    pub fn same(&self, other: &Token) -> (res: bool)
        ensures
            res == (self@ == other@),
    {
        if self.rank() != other.rank() {
            return false;
        }
        match self {
            Token::Ident(a) => match other {
                Token::Ident(b) => *a == *b,
                _ => false,
            },
            Token::Number(a) => match other {
                Token::Number(b) => *a == *b,
                _ => false,
            },
            Token::StringLiteral(a) => match other {
                Token::StringLiteral(b) => *a == *b,
                _ => false,
            },
            _ => true,
        }
    }

    fn rank(&self) -> (r: u8)
        ensures
            r as int == self@.rank(),
    {
        match self {
            Token::Cookable => 0,
            Token::Cook => 1,
            Token::Is => 2,
            Token::Skibidi => 3,
            Token::Sigma => 4,
            Token::NewLine => 5,
            Token::Ohio => 6,
            Token::Suspect => 7,
            Token::Then => 8,
            Token::Do => 9,
            Token::Slay => 10,
            Token::Rizz => 11,
            Token::Blud => 12,
            Token::GhostKeyword => 13,
            Token::Ick => 14,
            Token::Gyatt => 15,
            Token::Goon => 16,
            Token::In => 17,
            Token::Pookie => 18,
            Token::SelfKeyword => 19,
            Token::New => 20,
            Token::Ident(_) => 21,
            Token::Number(_) => 22,
            Token::StringLiteral(_) => 23,
            Token::LeftParen => 24,
            Token::RightParen => 25,
            Token::LeftBracket => 26,
            Token::RightBracket => 27,
            Token::Comma => 28,
            Token::Plus => 29,
            Token::Minus => 30,
            Token::Star => 31,
            Token::Slash => 32,
            Token::GreaterThan => 33,
            Token::LessThan => 34,
            Token::Dot => 35,
            Token::EOF => 36,
        }
    }
}

} // verus!
