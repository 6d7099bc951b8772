use vstd::prelude::*;
use vstd::string::*;
use crate::error::{ErrorView, ParseError};
use crate::text::{
    char_is_alphabetic, char_is_alphanumeric, char_is_digit, char_is_whitespace, chars_of,
    digits_to_u64, digits_value, is_alphabetic, is_alphanumeric, is_digit, is_whitespace, spells,
    string_from_chars,
};
use crate::token::{Token, TokenView};

verus! {

/// The lexer's state as plain values: the whole input, how many characters
/// have been consumed, and the current line (lines count from 1).
pub struct LexerView {
    pub input: Seq<char>,
    pub position: nat,
    pub line: usize,
}

/// Splits source text into tokens, one call at a time.
pub struct Lexer {
    input: Vec<char>,
    position: usize,
    line: usize,
}

impl View for Lexer {
    type V = LexerView;

    closed spec fn view(&self) -> LexerView {
        LexerView { input: self.input@, position: self.position as nat, line: self.line }
    }
}

/// The line after one more newline; the count stops at the largest `usize`.
pub open spec fn next_line(line: usize) -> usize {
    if line < usize::MAX {
        (line + 1) as usize
    } else {
        line
    }
}

/// Whether `c` may continue an identifier.
pub open spec fn is_word_char(c: char) -> bool {
    is_alphanumeric(c) || c == '_'
}

/// The keyword that `word` spells, if it spells one.
pub open spec fn keyword(word: Seq<char>) -> Option<TokenView> {
    if word == "cookable"@ {
        Some(TokenView::Cookable)
    } else if word == "cook"@ {
        Some(TokenView::Cook)
    } else if word == "is"@ {
        Some(TokenView::Is)
    } else if word == "skibidi"@ {
        Some(TokenView::Skibidi)
    } else if word == "sigma"@ {
        Some(TokenView::Sigma)
    } else if word == "ohio"@ {
        Some(TokenView::Ohio)
    } else if word == "sus"@ {
        Some(TokenView::Suspect)
    } else if word == "then"@ {
        Some(TokenView::Then)
    } else if word == "do"@ {
        Some(TokenView::Do)
    } else if word == "slay"@ {
        Some(TokenView::Slay)
    } else if word == "rizz"@ {
        Some(TokenView::Rizz)
    } else if word == "blud"@ {
        Some(TokenView::Blud)
    } else if word == "ghost"@ {
        Some(TokenView::GhostKeyword)
    } else if word == "ick"@ {
        Some(TokenView::Ick)
    } else if word == "gyatt"@ {
        Some(TokenView::Gyatt)
    } else if word == "goon"@ {
        Some(TokenView::Goon)
    } else if word == "in"@ {
        Some(TokenView::In)
    } else if word == "pookie"@ {
        Some(TokenView::Pookie)
    } else if word == "new"@ {
        Some(TokenView::New)
    } else {
        None
    }
}

/// The first position from `position` on whose character cannot continue an
/// identifier, or the end of the input.
pub open spec fn word_end(input: Seq<char>, position: nat) -> nat
    decreases input.len() - position,
{
    if position < input.len() && is_word_char(input[position as int]) {
        word_end(input, position + 1)
    } else {
        position
    }
}

/// The first position from `position` on whose character is no digit, or the
/// end of the input.
pub open spec fn digits_end(input: Seq<char>, position: nat) -> nat
    decreases input.len() - position,
{
    if position < input.len() && is_digit(input[position as int]) {
        digits_end(input, position + 1)
    } else {
        position
    }
}

impl LexerView {
    /// The next character, if any is left.
    pub open spec fn peek(self) -> Option<char> {
        if self.position < self.input.len() {
            Some(self.input[self.position as int])
        } else {
            None
        }
    }

    /// The character after the next one, if there is one.
    pub open spec fn peek_next(self) -> Option<char> {
        if self.position < self.input.len() && self.position + 1 < self.input.len() {
            Some(self.input[self.position as int + 1])
        } else {
            None
        }
    }

    /// The state after consuming one character, which counts as a line end
    /// when it is a newline. At the end of the input nothing changes.
    pub open spec fn advance(self) -> LexerView {
        if self.position < self.input.len() {
            LexerView {
                input: self.input,
                position: self.position + 1,
                line: if self.input[self.position as int] == '\n' {
                    next_line(self.line)
                } else {
                    self.line
                },
            }
        } else {
            self
        }
    }

    /// How many characters are left.
    pub open spec fn remaining(self) -> nat {
        if self.position <= self.input.len() {
            (self.input.len() - self.position) as nat
        } else {
            0
        }
    }

    /// The state after the rest of a comment: everything up to and including
    /// the next newline, or up to the end of the input.
    pub open spec fn after_comment(self) -> LexerView
        decreases self.remaining(),
    {
        if self.position < self.input.len() {
            if self.input[self.position as int] == '\n' {
                self.advance()
            } else {
                self.advance().after_comment()
            }
        } else {
            self
        }
    }

    /// The state after skipping whitespace and comments. A comment starts
    /// with two minus signs; one minus sign alone is left in place.
    pub open spec fn after_blanks(self) -> LexerView
        decreases self.remaining(),
    {
        match self.peek() {
            Some(c) => if is_whitespace(c) {
                self.advance().after_blanks()
            } else if c == '-' && self.peek_next() == Some('-') {
                let rest = self.advance().advance().after_comment();
                if rest.remaining() < self.remaining() {
                    rest.after_blanks()
                } else {
                    rest
                }
            } else {
                self
            },
            None => self,
        }
    }

    /// The state after a string literal whose opening quote was consumed:
    /// just past the closing quote, or at the end of the input.
    pub open spec fn after_string(self) -> LexerView
        decreases self.remaining(),
    {
        if self.position < self.input.len() {
            if self.input[self.position as int] == '"' {
                self.advance()
            } else {
                self.advance().after_string()
            }
        } else {
            self
        }
    }

    /// The text of a string literal whose opening quote was consumed: the
    /// characters before the closing quote, or all that are left.
    pub open spec fn string_text(self) -> Seq<char>
        decreases self.remaining(),
    {
        if self.position < self.input.len() {
            if self.input[self.position as int] == '"' {
                Seq::empty()
            } else {
                seq![self.input[self.position as int]] + self.advance().string_text()
            }
        } else {
            Seq::empty()
        }
    }

    /// The same input and line at another position.
    pub open spec fn at(self, position: nat) -> LexerView {
        LexerView { input: self.input, position, line: self.line }
    }

    /// The token that starts with the character just consumed, which is a
    /// letter or an underscore: a keyword or an identifier; and the state
    /// after it.
    pub open spec fn word_token(self) -> (TokenView, LexerView) {
        let end = word_end(self.input, self.position);
        let word = self.input.subrange(self.position as int - 1, end as int);
        (
            match keyword(word) {
                Some(t) => t,
                None => TokenView::Ident(word),
            },
            self.at(end),
        )
    }

    /// The token that starts with the digit just consumed, and the state
    /// after it. A number that does not fit in 64 signed bits is an error.
    pub open spec fn number_token(self) -> (Result<TokenView, ErrorView>, LexerView) {
        let end = digits_end(self.input, self.position);
        let value = digits_value(self.input.subrange(self.position as int - 1, end as int));
        (
            if value <= i64::MAX {
                Ok(TokenView::Number(value as i64))
            } else {
                Err(
                    ErrorView::GeneralError {
                        line: self.line,
                        message: "Integer literal out of range"@,
                    },
                )
            },
            self.at(end),
        )
    }

    /// The next token and the state after it: blanks are skipped, then one
    /// token is read. A character that starts no token is an error, and is
    /// consumed.
    #[verifier::opaque]
    pub open spec fn next_token(self) -> (Result<TokenView, ErrorView>, LexerView) {
        let start = self.after_blanks();
        match start.peek() {
            None => (Ok(TokenView::EOF), start),
            Some(c) => {
                let rest = start.advance();
                if c == '"' {
                    (Ok(TokenView::StringLiteral(rest.string_text())), rest.after_string())
                } else if c == '(' {
                    (Ok(TokenView::LeftParen), rest)
                } else if c == ')' {
                    (Ok(TokenView::RightParen), rest)
                } else if c == '[' {
                    (Ok(TokenView::LeftBracket), rest)
                } else if c == ']' {
                    (Ok(TokenView::RightBracket), rest)
                } else if c == ',' {
                    (Ok(TokenView::Comma), rest)
                } else if c == '.' {
                    (Ok(TokenView::Dot), rest)
                } else if c == '\n' {
                    (Ok(TokenView::NewLine), rest)
                } else if c == '+' {
                    (Ok(TokenView::Plus), rest)
                } else if c == '-' {
                    (Ok(TokenView::Minus), rest)
                } else if c == '*' {
                    (Ok(TokenView::Star), rest)
                } else if c == '/' {
                    (Ok(TokenView::Slash), rest)
                } else if c == '>' {
                    (Ok(TokenView::GreaterThan), rest)
                } else if c == '<' {
                    (Ok(TokenView::LessThan), rest)
                } else if is_alphabetic(c) || c == '_' {
                    (Ok(rest.word_token().0), rest.word_token().1)
                } else if is_digit(c) {
                    rest.number_token()
                } else {
                    (Err(ErrorView::LexerUnexpectedChar { found: seq![c], line: rest.line }), rest)
                }
            },
        }
    }
}


/// A run of digits ends inside the input, not before its start, and holds
/// digits only.
pub proof fn lemma_digits_end(input: Seq<char>, position: nat)
    requires
        position <= input.len(),
    ensures
        position <= digits_end(input, position) <= input.len(),
        forall|i: int| position <= i < digits_end(input, position) ==> is_digit(#[trigger] input[i]),
    decreases input.len() - position,
{
    if position < input.len() && is_digit(input[position as int]) {
        lemma_digits_end(input, position + 1);
    }
}

impl Lexer {
    /// A lexer at the start of `input`, on line 1.
    pub fn new(input: &str) -> (lexer: Lexer)
        ensures
            lexer@ == (LexerView { input: input@, position: 0, line: 1 }),
    {
        Lexer { input: chars_of(input), position: 0, line: 1 }
    }

    /// The line on which the lexer stands.
    pub fn line(&self) -> (line: usize)
        ensures
            line == self@.line,
    {
        self.line
    }

    /// Consumes and returns the next character, counting a newline as the
    /// end of a line.
    pub fn next_char(&mut self) -> (c: Option<char>)
        ensures
            c == old(self)@.peek(),
            final(self)@ == old(self)@.advance(),
    {
        if self.position < self.input.len() {
            let c = self.input[self.position];
            self.position += 1;
            if c == '\n' && self.line < usize::MAX {
                self.line += 1;
            }
            Some(c)
        } else {
            None
        }
    }

    /// Returns the next character without consuming it.
    pub fn peek_char(&self) -> (c: Option<char>)
        ensures
            c == self@.peek(),
    {
        if self.position < self.input.len() {
            Some(self.input[self.position])
        } else {
            None
        }
    }

    /// Returns the character after the next one without consuming anything.
    pub fn peek_next_char(&self) -> (c: Option<char>)
        ensures
            c == self@.peek_next(),
    {
        if self.position < self.input.len() && self.position + 1 < self.input.len() {
            Some(self.input[self.position + 1])
        } else {
            None
        }
    }

    /// Skips the rest of a comment, through the newline that ends it.
    pub fn skip_comment(&mut self)
        ensures
            final(self)@ == old(self)@.after_comment(),
    {
        loop
            invariant_except_break
                self@.after_comment() == old(self)@.after_comment(),
            ensures
                self@ == old(self)@.after_comment(),
            decreases self@.remaining(),
        {
            match self.next_char() {
                Some(c) => {
                    if c == '\n' {
                        break;
                    }
                },
                None => {
                    break;
                },
            }
        }
    }

    /// Skips whitespace and comments.
    pub fn skip_whitespace(&mut self)
        ensures
            final(self)@ == old(self)@.after_blanks(),
    {
        loop
            invariant_except_break
                self@.after_blanks() == old(self)@.after_blanks(),
            ensures
                self@ == old(self)@.after_blanks(),
            decreases self@.remaining(),
        {
            let ghost before = self@;
            match self.peek_char() {
                Some(c) => {
                    if char_is_whitespace(c) {
                        self.next_char();
                    } else if c == '-' {
                        match self.peek_next_char() {
                            Some(d) => {
                                if d == '-' {
                                    self.next_char();
                                    self.next_char();
                                    self.skip_comment();
                                    proof {
                                        lemma_after_comment(before.advance().advance());
                                    }
                                } else {
                                    break;
                                }
                            },
                            None => {
                                break;
                            },
                        }
                    } else {
                        break;
                    }
                },
                None => {
                    break;
                },
            }
        }
    }

    /// Reads a string literal whose opening quote was just consumed. The
    /// literal ends at the next quote, or at the end of the input.
    pub fn read_string(&mut self) -> (token: Token)
        ensures
            token@ == TokenView::StringLiteral(old(self)@.string_text()),
            final(self)@ == old(self)@.after_string(),
    {
        let mut result = String::new();
        loop
            invariant_except_break
                result@ + self@.string_text() == old(self)@.string_text(),
                self@.after_string() == old(self)@.after_string(),
            ensures
                result@ == old(self)@.string_text(),
                self@ == old(self)@.after_string(),
            decreases self@.remaining(),
        {
            match self.next_char() {
                Some(c) => {
                    if c == '"' {
                        break;
                    } else {
                        result.push(c);
                    }
                },
                None => {
                    break;
                },
            }
        }
        Token::StringLiteral(result)
    }

    /// Reads an identifier or a keyword whose first character was just
    /// consumed.
    fn read_identifier_or_keyword(&mut self) -> (token: Token)
        requires
            1 <= old(self)@.position <= old(self)@.input.len(),
        ensures
            token@ == old(self)@.word_token().0,
            final(self)@ == old(self)@.word_token().1,
    {
        let start = self.position - 1;
        while self.position < self.input.len() && (char_is_alphanumeric(self.input[self.position])
            || self.input[self.position] == '_')
            invariant
                self@.input == old(self)@.input,
                self@.line == old(self)@.line,
                old(self)@.position <= self@.position <= self@.input.len(),
                word_end(self@.input, self@.position) == word_end(
                    old(self)@.input,
                    old(self)@.position,
                ),
            decreases self@.remaining(),
        {
            self.position += 1;
        }
        let end = self.position;
        self.word(start, end)
    }

    /// The token that `input[start..end]` spells: a keyword, or else an
    /// identifier.
    fn word(&self, start: usize, end: usize) -> (token: Token)
        requires
            start <= end <= self@.input.len(),
        ensures
            token@ == match keyword(self@.input.subrange(start as int, end as int)) {
                Some(t) => t,
                None => TokenView::Ident(self@.input.subrange(start as int, end as int)),
            },
    {
        let v = &self.input;
        if spells(v, start, end, "cookable") {
            Token::Cookable
        } else if spells(v, start, end, "cook") {
            Token::Cook
        } else if spells(v, start, end, "is") {
            Token::Is
        } else if spells(v, start, end, "skibidi") {
            Token::Skibidi
        } else if spells(v, start, end, "sigma") {
            Token::Sigma
        } else if spells(v, start, end, "ohio") {
            Token::Ohio
        } else if spells(v, start, end, "sus") {
            Token::Suspect
        } else if spells(v, start, end, "then") {
            Token::Then
        } else if spells(v, start, end, "do") {
            Token::Do
        } else if spells(v, start, end, "slay") {
            Token::Slay
        } else if spells(v, start, end, "rizz") {
            Token::Rizz
        } else if spells(v, start, end, "blud") {
            Token::Blud
        } else if spells(v, start, end, "ghost") {
            Token::GhostKeyword
        } else if spells(v, start, end, "ick") {
            Token::Ick
        } else if spells(v, start, end, "gyatt") {
            Token::Gyatt
        } else if spells(v, start, end, "goon") {
            Token::Goon
        } else if spells(v, start, end, "in") {
            Token::In
        } else if spells(v, start, end, "pookie") {
            Token::Pookie
        } else if spells(v, start, end, "new") {
            Token::New
        } else {
            Token::Ident(string_from_chars(v, start, end))
        }
    }

    /// Reads a number whose first digit was just consumed.
    fn read_number(&mut self) -> (token: Result<Token, ParseError>)
        requires
            1 <= old(self)@.position <= old(self)@.input.len(),
            is_digit(old(self)@.input[old(self)@.position - 1]),
        ensures
            match token {
                Ok(t) => old(self)@.number_token().0 == Ok::<TokenView, ErrorView>(t@),
                Err(e) => old(self)@.number_token().0 == Err::<TokenView, ErrorView>(e@),
            },
            final(self)@ == old(self)@.number_token().1,
    {
        let start = self.position - 1;
        proof {
            lemma_digits_end(self@.input, self@.position);
        }
        while self.position < self.input.len() && char_is_digit(self.input[self.position])
            invariant
                self@.input == old(self)@.input,
                self@.line == old(self)@.line,
                old(self)@.position <= self@.position <= self@.input.len(),
                digits_end(self@.input, self@.position) == digits_end(
                    old(self)@.input,
                    old(self)@.position,
                ),
            decreases self@.remaining(),
        {
            self.position += 1;
        }
        let end = self.position;
        let value = digits_to_u64(&self.input, start, end);
        match value {
            Some(value) if value <= i64::MAX as u64 => Ok(Token::Number(value as i64)),
            _ => Err(
                ParseError::GeneralError {
                    line: self.line,
                    message: String::from_str("Integer literal out of range"),
                },
            ),
        }
    }

    /// Skips blanks and reads the next token.
    pub fn next_token(&mut self) -> (token: Result<Token, ParseError>)
        ensures
            match token {
                Ok(t) => old(self)@.next_token().0 == Ok::<TokenView, ErrorView>(t@),
                Err(e) => old(self)@.next_token().0 == Err::<TokenView, ErrorView>(e@),
            },
            final(self)@ == old(self)@.next_token().1,
    {
        proof {
            reveal(LexerView::next_token);
        }
        self.skip_whitespace();
        match self.next_char() {
            None => Ok(Token::EOF),
            Some(c) => {
                if c == '"' {
                    Ok(self.read_string())
                } else if c == '(' {
                    Ok(Token::LeftParen)
                } else if c == ')' {
                    Ok(Token::RightParen)
                } else if c == '[' {
                    Ok(Token::LeftBracket)
                } else if c == ']' {
                    Ok(Token::RightBracket)
                } else if c == ',' {
                    Ok(Token::Comma)
                } else if c == '.' {
                    Ok(Token::Dot)
                } else if c == '\n' {
                    Ok(Token::NewLine)
                } else if c == '+' {
                    Ok(Token::Plus)
                } else if c == '-' {
                    Ok(Token::Minus)
                } else if c == '*' {
                    Ok(Token::Star)
                } else if c == '/' {
                    Ok(Token::Slash)
                } else if c == '>' {
                    Ok(Token::GreaterThan)
                } else if c == '<' {
                    Ok(Token::LessThan)
                } else if char_is_alphabetic(c) || c == '_' {
                    Ok(self.read_identifier_or_keyword())
                } else if char_is_digit(c) {
                    self.read_number()
                } else {
                    let mut found = String::new();
                    found.push(c);
                    Err(ParseError::LexerUnexpectedChar { found, line: self.line })
                }
            },
        }
    }
}

/// The rest of a comment never moves backwards.
pub proof fn lemma_after_comment(s: LexerView)
    ensures
        s.after_comment().remaining() <= s.remaining(),
        s.after_comment().input == s.input,
        s.position <= s.input.len() ==> s.position <= s.after_comment().position
            <= s.input.len(),
    decreases s.remaining(),
{
    if s.position < s.input.len() && s.input[s.position as int] != '\n' {
        lemma_after_comment(s.advance());
    }
}

/// Skipping blanks never moves backwards.
pub proof fn lemma_after_blanks(s: LexerView)
    ensures
        s.after_blanks().remaining() <= s.remaining(),
    decreases s.remaining(),
{
    match s.peek() {
        Some(c) => {
            if is_whitespace(c) {
                lemma_after_blanks(s.advance());
            } else if c == '-' && s.peek_next() == Some('-') {
                let rest = s.advance().advance().after_comment();
                lemma_after_comment(s.advance().advance());
                if rest.remaining() < s.remaining() {
                    lemma_after_blanks(rest);
                }
            }
        },
        None => {},
    }
}

/// The end of a string literal is not before its start.
pub proof fn lemma_after_string(s: LexerView)
    ensures
        s.after_string().remaining() <= s.remaining(),
    decreases s.remaining(),
{
    if s.position < s.input.len() && s.input[s.position as int] != '"' {
        lemma_after_string(s.advance());
    }
}

/// A word ends at or after its start.
pub proof fn lemma_word_end(input: Seq<char>, position: nat)
    ensures
        position <= word_end(input, position),
    decreases input.len() - position,
{
    if position < input.len() && is_word_char(input[position as int]) {
        lemma_word_end(input, position + 1);
    }
}

/// A run of digits ends at or after its start.
pub proof fn lemma_digits_end_after(input: Seq<char>, position: nat)
    ensures
        position <= digits_end(input, position),
    decreases input.len() - position,
{
    if position < input.len() && is_digit(input[position as int]) {
        lemma_digits_end_after(input, position + 1);
    }
}

/// Reading a token never moves backwards, and a token other than the end of
/// the input consumes at least one character.
pub proof fn lemma_next_token(s: LexerView)
    ensures
        s.next_token().1.remaining() <= s.remaining(),
        s.next_token().0 is Ok && s.next_token().0->Ok_0 != TokenView::EOF
            ==> s.next_token().1.remaining() < s.remaining(),
{
    reveal(LexerView::next_token);
    lemma_after_blanks(s);
    let start = s.after_blanks();
    if start.peek() is Some {
        let rest = start.advance();
        lemma_after_string(rest);
        lemma_word_end(rest.input, rest.position);
        lemma_digits_end_after(rest.input, rest.position);
    }
}


/// The lexer fails in two ways only: on a character that starts no token,
/// and on a number that is out of range.
pub proof fn lemma_next_token_error(s: LexerView)
    ensures
        s.next_token().0 is Err ==> s.next_token().0->Err_0 is GeneralError
            || s.next_token().0->Err_0 is LexerUnexpectedChar,
{
    reveal(LexerView::next_token);
}

} // verus!
