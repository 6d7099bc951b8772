use vstd::prelude::*;
use vstd::string::*;
use crate::ast::{
    exprs_view, lemma_exprs_view_push, lemma_stmts_view_push, stmts_view, Expr, ExprView, Stmt,
    StmtView,
};
use crate::cursor::{fail, lemma_advance, stuck, ParserView, Step, Until};
use crate::error::{ErrorView, ParseError};
use crate::lexer::Lexer;
use crate::token::{token_debug, Token, TokenView};

verus! {

broadcast use lemma_advance;

/// How tightly a binary operator binds; `None` for any other token.
pub open spec fn precedence(t: TokenView) -> Option<u8> {
    match t {
        TokenView::Plus | TokenView::Minus => Some(1u8),
        TokenView::Star | TokenView::Slash => Some(2u8),
        TokenView::Rizz => Some(0u8),
        TokenView::GreaterThan | TokenView::LessThan => Some(1u8),
        _ => None,
    }
}

/// Whether a statement declares the constructor, a function named
/// `__edge__`.
pub open spec fn is_constructor(s: StmtView) -> bool {
    match s {
        StmtView::Function { name, .. } => name == "__edge__"@,
        _ => false,
    }
}

/// Whether a class body defines the constructor.
pub open spec fn has_constructor(methods: Seq<StmtView>) -> bool {
    exists|i: int| 0 <= i < methods.len() && is_constructor(#[trigger] methods[i])
}

impl ParserView {
    /// Statements up to the end that `until` names, appended to `done`.
    pub open spec fn block(self, done: Seq<StmtView>, until: Until) -> Step<Seq<StmtView>>
        decreases self.measure(), 6int,
    {
        if self.at_end(until) {
            (Ok(done), self)
        } else {
            let r = self.statement();
            if r.0 is Err {
                fail(r)
            } else if r.1.measure() < self.measure() {
                r.1.block(done.push(r.0->Ok_0), until)
            } else {
                stuck(r.1)
            }
        }
    }

    /// One statement, chosen by the lookahead token.
    pub open spec fn statement(self) -> Step<StmtView>
        decreases self.measure(), 5int,
    {
        match self.current {
            TokenView::Pookie => self.class_decl(),
            TokenView::Cookable => self.function_decl(),
            TokenView::Ident(_) => self.assignment(),
            TokenView::Cook => self.cook_statement(),
            TokenView::Gyatt => self.import_decl(),
            TokenView::Skibidi => self.while_loop(),
            TokenView::Goon => self.for_loop(),
            TokenView::Suspect => self.if_statement(),
            TokenView::Blud => self.return_statement(),
            TokenView::GhostKeyword => self.continue_statement(),
            _ => self.unknown(),
        }
    }

    /// The methods of a class body, appended to `done`.
    pub open spec fn methods(self, done: Seq<StmtView>) -> Step<Seq<StmtView>>
        decreases self.measure(), 6int,
    {
        if self.at_end(Until::Slay) {
            (Ok(done), self)
        } else {
            let r = self.function_decl();
            if r.0 is Err {
                fail(r)
            } else if r.1.measure() < self.measure() {
                r.1.methods(done.push(r.0->Ok_0))
            } else {
                stuck(r.1)
            }
        }
    }

    /// `pookie Name ( ) methods slay`. A class without a constructor is
    /// rejected here.
    pub open spec fn class_decl(self) -> Step<StmtView>
        decreases self.measure(), 4int,
    {
        let line = self.line();
        let a = self.expect(TokenView::Pookie);
        if a.0 is Err {
            fail(a)
        } else {
            match a.1.current {
                TokenView::Ident(name) => {
                    let b = a.1.advance();
                    if b.0 is Err {
                        fail(b)
                    } else {
                        let c = b.1.expect(TokenView::LeftParen);
                        if c.0 is Err {
                            fail(c)
                        } else {
                            let d = c.1.expect(TokenView::RightParen);
                            if d.0 is Err {
                                fail(d)
                            } else {
                                let m = d.1.methods(Seq::empty());
                                if m.0 is Err {
                                    fail(m)
                                } else if !has_constructor(m.0->Ok_0) {
                                    m.1.general("Class must have an __edge__ method"@)
                                } else {
                                    let e = m.1.expect(TokenView::Slay);
                                    if e.0 is Err {
                                        fail(e)
                                    } else {
                                        (
                                            Ok(
                                                StmtView::Class {
                                                    name,
                                                    functions: m.0->Ok_0,
                                                    line,
                                                },
                                            ),
                                            e.1,
                                        )
                                    }
                                }
                            }
                        }
                    }
                },
                _ => a.1.general("Expected class name"@),
            }
        }
    }

    /// `cookable name ( ) statements slay`.
    pub open spec fn function_decl(self) -> Step<StmtView>
        decreases self.measure(), 4int,
    {
        let line = self.line();
        let a = self.expect(TokenView::Cookable);
        if a.0 is Err {
            fail(a)
        } else {
            match a.1.current {
                TokenView::Ident(name) => {
                    let b = a.1.advance();
                    if b.0 is Err {
                        fail(b)
                    } else {
                        let c = b.1.expect(TokenView::LeftParen);
                        if c.0 is Err {
                            fail(c)
                        } else {
                            let d = c.1.expect(TokenView::RightParen);
                            if d.0 is Err {
                                fail(d)
                            } else {
                                let m = d.1.block(Seq::empty(), Until::Slay);
                                if m.0 is Err {
                                    fail(m)
                                } else {
                                    let e = m.1.expect(TokenView::Slay);
                                    if e.0 is Err {
                                        fail(e)
                                    } else {
                                        (
                                            Ok(
                                                StmtView::Function {
                                                    name,
                                                    body: m.0->Ok_0,
                                                    line,
                                                },
                                            ),
                                            e.1,
                                        )
                                    }
                                }
                            }
                        }
                    }
                },
                _ => a.1.general(
                    "found token: "@ + token_debug(a.1.current) + ", expected function name"@,
                ),
            }
        }
    }

    /// The optional `. property` after the first name of a statement: the
    /// receiver, if there is one, and the name that is assigned or read.
    pub open spec fn target(self, name: Seq<char>) -> Step<(Option<Box<ExprView>>, Seq<char>)> {
        if self.current == TokenView::Dot {
            let a = self.advance();
            if a.0 is Err {
                fail(a)
            } else {
                match a.1.current {
                    TokenView::Ident(property) => {
                        let b = a.1.advance();
                        if b.0 is Err {
                            fail(b)
                        } else {
                            (Ok((Some(Box::new(ExprView::Ident(name))), property)), b.1)
                        }
                    },
                    _ => a.1.general("Expected identifier after 'self.'"@),
                }
            }
        } else {
            (Ok((None, name)), self)
        }
    }

    /// A statement that starts with a name: `name is value`,
    /// `name . property is value`, or the name followed by an expression.
    pub open spec fn assignment(self) -> Step<StmtView>
        decreases self.measure(), 4int,
    {
        let line = self.line();
        match self.current {
            TokenView::Ident(name) => {
                let a = self.advance();
                if a.0 is Err {
                    fail(a)
                } else {
                    let t = a.1.target(name);
                    if t.0 is Err {
                        fail(t)
                    } else if t.1.current == TokenView::Is {
                        let b = t.1.advance();
                        if b.0 is Err {
                            fail(b)
                        } else if !(b.1.measure() < self.measure()) {
                            stuck(b.1)
                        } else {
                            let v = b.1.expression();
                            if v.0 is Err {
                                fail(v)
                            } else {
                                (
                                    Ok(
                                        StmtView::VariableAssign {
                                            name: (t.0->Ok_0).1,
                                            object: (t.0->Ok_0).0,
                                            value: v.0->Ok_0,
                                            line,
                                        },
                                    ),
                                    v.1,
                                )
                            }
                        }
                    } else if !(t.1.measure() < self.measure()) {
                        stuck(t.1)
                    } else {
                        let v = t.1.expression();
                        if v.0 is Err {
                            fail(v)
                        } else {
                            (Ok(StmtView::Expression { value: v.0->Ok_0, line }), v.1)
                        }
                    }
                }
            },
            _ => (Err(ErrorView::Other("Expected identifier"@)), self),
        }
    }

    /// An expression: operands joined by binary operators.
    pub open spec fn expression(self) -> Step<ExprView>
        decreases self.measure(), 2int,
    {
        self.binary(0)
    }

    /// An expression whose operators all bind at least as tightly as
    /// `min_precedence`.
    pub open spec fn binary(self, min_precedence: u8) -> Step<ExprView>
        decreases self.measure(), 1int,
    {
        let l = self.primary();
        if l.0 is Err {
            fail(l)
        } else if l.1.measure() < self.measure() {
            l.1.tail(l.0->Ok_0, min_precedence)
        } else {
            stuck(l.1)
        }
    }

    /// The operators and right operands that follow `left`. Operators of
    /// one precedence group to the left.
    pub open spec fn tail(self, left: ExprView, min_precedence: u8) -> Step<ExprView>
        decreases self.measure(), 0int,
    {
        match precedence(self.current) {
            None => (Ok(left), self),
            Some(p) => if p < min_precedence {
                (Ok(left), self)
            } else {
                let a = self.advance();
                if a.0 is Err {
                    fail(a)
                } else {
                    let r = a.1.binary((p + 1) as u8);
                    if r.0 is Err {
                        fail(r)
                    } else if r.1.measure() < self.measure() {
                        r.1.tail(
                            ExprView::BinOp {
                                left: Box::new(left),
                                op: self.current,
                                right: Box::new(r.0->Ok_0),
                            },
                            min_precedence,
                        )
                    } else {
                        stuck(r.1)
                    }
                }
            },
        }
    }

    /// The arguments of a call, after its opening parenthesis: nothing, or
    /// expressions with a comma between two of them.
    pub open spec fn arguments(self) -> Step<Seq<ExprView>>
        decreases self.measure(), 3int,
    {
        if self.current == TokenView::RightParen {
            (Ok(Seq::empty()), self)
        } else {
            let e = self.expression();
            if e.0 is Err {
                fail(e)
            } else if e.1.measure() < self.measure() {
                e.1.more_arguments(seq![e.0->Ok_0])
            } else {
                stuck(e.1)
            }
        }
    }

    /// The arguments that follow `done`, each after a comma.
    pub open spec fn more_arguments(self, done: Seq<ExprView>) -> Step<Seq<ExprView>>
        decreases self.measure(), 3int,
    {
        if self.current == TokenView::Comma {
            let a = self.advance();
            if a.0 is Err {
                fail(a)
            } else {
                let e = a.1.expression();
                if e.0 is Err {
                    fail(e)
                } else if e.1.measure() < self.measure() {
                    e.1.more_arguments(done.push(e.0->Ok_0))
                } else {
                    stuck(e.1)
                }
            }
        } else {
            (Ok(done), self)
        }
    }

    /// `( arguments )` after a name: a call of `name` on `object`.
    pub open spec fn call(
        self,
        name: Seq<char>,
        object: Option<Box<ExprView>>,
    ) -> Step<ExprView>
        decreases self.measure(), 4int,
    {
        let a = self.expect(TokenView::LeftParen);
        if a.0 is Err {
            fail(a)
        } else {
            let args = a.1.arguments();
            if args.0 is Err {
                fail(args)
            } else {
                let b = args.1.expect(TokenView::RightParen);
                if b.0 is Err {
                    fail(b)
                } else {
                    (Ok(ExprView::FunctionCall { name, object, args: args.0->Ok_0 }), b.1)
                }
            }
        }
    }

    /// The members that follow `left`, each after a dot: a method call where
    /// a parenthesis follows the member's name, a field read otherwise.
    pub open spec fn chain(self, left: ExprView) -> Step<ExprView>
        decreases self.measure(), 5int,
    {
        if self.current == TokenView::Dot {
            let a = self.advance();
            if a.0 is Err {
                fail(a)
            } else {
                match a.1.current {
                    TokenView::Ident(member) => {
                        let b = a.1.advance();
                        if b.0 is Err {
                            fail(b)
                        } else if b.1.current == TokenView::LeftParen {
                            let c = b.1.call(member, Some(Box::new(left)));
                            if c.0 is Err {
                                fail(c)
                            } else if c.1.measure() < self.measure() {
                                c.1.chain(c.0->Ok_0)
                            } else {
                                stuck(c.1)
                            }
                        } else {
                            b.1.chain(
                                ExprView::ObjectValue {
                                    object: Some(Box::new(left)),
                                    name: member,
                                },
                            )
                        }
                    },
                    _ => (
                        Err(
                            ErrorView::UnexpectedToken {
                                expected: TokenView::Ident("variable name after ."@),
                                found: a.1.current,
                                line: a.1.line(),
                            },
                        ),
                        a.1,
                    ),
                }
            }
        } else {
            (Ok(left), self)
        }
    }

    /// The elements of a list literal after `done`, up to its closing
    /// bracket. A comma follows each element but, at will, the last.
    pub open spec fn list_items(self, done: Seq<ExprView>) -> Step<Seq<ExprView>>
        decreases self.measure(), 3int,
    {
        if self.current == TokenView::RightBracket {
            (Ok(done), self)
        } else {
            let e = self.expression();
            if e.0 is Err {
                fail(e)
            } else if e.1.current == TokenView::Comma {
                let a = e.1.advance();
                if a.0 is Err {
                    fail(a)
                } else if a.1.measure() < self.measure() {
                    a.1.list_items(done.push(e.0->Ok_0))
                } else {
                    stuck(a.1)
                }
            } else {
                (Ok(done.push(e.0->Ok_0)), e.1)
            }
        }
    }

    /// The arguments of an instantiation after `done`, up to its closing
    /// parenthesis. Commas between them are optional.
    pub open spec fn new_arguments(self, done: Seq<ExprView>) -> Step<Seq<ExprView>>
        decreases self.measure(), 3int,
    {
        if self.current == TokenView::RightParen {
            (Ok(done), self)
        } else {
            let e = self.expression();
            if e.0 is Err {
                fail(e)
            } else if !(e.1.measure() < self.measure()) {
                stuck(e.1)
            } else if e.1.current == TokenView::Comma {
                let a = e.1.advance();
                if a.0 is Err {
                    fail(a)
                } else {
                    a.1.new_arguments(done.push(e.0->Ok_0))
                }
            } else {
                e.1.new_arguments(done.push(e.0->Ok_0))
            }
        }
    }

    /// An operand: an instantiation, a minus sign and the number literal
    /// that follows it at once, a list literal, an expression after `cook`,
    /// a name with its members and call, or a literal.
    pub open spec fn primary(self) -> Step<ExprView>
        decreases self.measure(), 0int,
    {
        match self.current {
            TokenView::New => {
                let a = self.advance();
                if a.0 is Err {
                    fail(a)
                } else {
                    match a.1.current {
                        TokenView::Ident(class_name) => {
                            let b = a.1.advance();
                            if b.0 is Err {
                                fail(b)
                            } else {
                                let c = b.1.expect(TokenView::LeftParen);
                                if c.0 is Err {
                                    fail(c)
                                } else {
                                    let args = c.1.new_arguments(Seq::empty());
                                    if args.0 is Err {
                                        fail(args)
                                    } else {
                                        let d = args.1.expect(TokenView::RightParen);
                                        if d.0 is Err {
                                            fail(d)
                                        } else {
                                            (
                                                Ok(
                                                    ExprView::NewInstance {
                                                        class_name,
                                                        args: args.0->Ok_0,
                                                    },
                                                ),
                                                d.1,
                                            )
                                        }
                                    }
                                }
                            }
                        },
                        _ => a.1.general("Expected class name after 'new'"@),
                    }
                }
            },
            TokenView::Minus => {
                let a = self.advance();
                if a.0 is Err {
                    fail(a)
                } else {
                    match a.1.current {
                        TokenView::Number(n) => if n == i64::MIN {
                            a.1.general("Integer literal out of range"@)
                        } else {
                            let b = a.1.advance();
                            if b.0 is Err {
                                fail(b)
                            } else {
                                (Ok(ExprView::Number((-n) as i64)), b.1)
                            }
                        },
                        other => a.1.general(
                            "Expected a number after '-', found "@ + token_debug(other),
                        ),
                    }
                }
            },
            TokenView::LeftBracket => {
                let a = self.advance();
                if a.0 is Err {
                    fail(a)
                } else {
                    let items = a.1.list_items(Seq::empty());
                    if items.0 is Err {
                        fail(items)
                    } else {
                        let b = items.1.expect(TokenView::RightBracket);
                        if b.0 is Err {
                            fail(b)
                        } else {
                            (Ok(ExprView::List(items.0->Ok_0)), b.1)
                        }
                    }
                }
            },
            TokenView::Cook => {
                let a = self.advance();
                if a.0 is Err {
                    fail(a)
                } else {
                    a.1.expression()
                }
            },
            TokenView::Ident(name) => {
                let a = self.advance();
                if a.0 is Err {
                    fail(a)
                } else {
                    let c = a.1.chain(ExprView::Ident(name));
                    if c.0 is Err {
                        fail(c)
                    } else if c.1.current == TokenView::LeftParen {
                        if c.1.measure() < self.measure() {
                            c.1.call(name, None)
                        } else {
                            stuck(c.1)
                        }
                    } else {
                        c
                    }
                }
            },
            TokenView::Number(n) => {
                let a = self.advance();
                if a.0 is Err {
                    fail(a)
                } else {
                    (Ok(ExprView::Number(n)), a.1)
                }
            },
            TokenView::StringLiteral(text) => {
                let a = self.advance();
                if a.0 is Err {
                    fail(a)
                } else {
                    (Ok(ExprView::StringLiteral(text)), a.1)
                }
            },
            TokenView::Sigma => {
                let a = self.advance();
                if a.0 is Err {
                    fail(a)
                } else {
                    (Ok(ExprView::Boolean(true)), a.1)
                }
            },
            TokenView::Ohio => {
                let a = self.advance();
                if a.0 is Err {
                    fail(a)
                } else {
                    (Ok(ExprView::Boolean(false)), a.1)
                }
            },
            _ => self.unknown(),
        }
    }

    /// The method calls that follow `left` in a `cook` statement, each after
    /// a dot. Here a member must be called.
    pub open spec fn cook_chain(self, left: ExprView) -> Step<ExprView>
        decreases self.measure(), 5int,
    {
        if self.current == TokenView::Dot {
            let a = self.advance();
            if a.0 is Err {
                fail(a)
            } else {
                match a.1.current {
                    TokenView::Ident(member) => {
                        let b = a.1.advance();
                        if b.0 is Err {
                            fail(b)
                        } else {
                            let c = b.1.call(member, Some(Box::new(left)));
                            if c.0 is Err {
                                fail(c)
                            } else if c.1.measure() < self.measure() {
                                c.1.cook_chain(c.0->Ok_0)
                            } else {
                                stuck(c.1)
                            }
                        }
                    },
                    _ => (
                        Err(
                            ErrorView::UnexpectedToken {
                                expected: TokenView::Ident("method name after ."@),
                                found: a.1.current,
                                line: a.1.line(),
                            },
                        ),
                        a.1,
                    ),
                }
            }
        } else {
            (Ok(left), self)
        }
    }

    /// `cook name`, then method calls, then, at will, `( arguments )`, which
    /// makes the statement a call of `name` itself.
    pub open spec fn cook_statement(self) -> Step<StmtView>
        decreases self.measure(), 4int,
    {
        let line = self.line();
        let a = self.expect(TokenView::Cook);
        if a.0 is Err {
            fail(a)
        } else {
            match a.1.current {
                TokenView::Ident(name) => {
                    let b = a.1.advance();
                    if b.0 is Err {
                        fail(b)
                    } else {
                        let c = b.1.cook_chain(ExprView::Ident(name));
                        if c.0 is Err {
                            fail(c)
                        } else if c.1.current == TokenView::LeftParen {
                            if c.1.measure() < self.measure() {
                                let d = c.1.call(name, None);
                                if d.0 is Err {
                                    fail(d)
                                } else {
                                    (Ok(StmtView::Expression { value: d.0->Ok_0, line }), d.1)
                                }
                            } else {
                                stuck(c.1)
                            }
                        } else {
                            (Ok(StmtView::Expression { value: c.0->Ok_0, line }), c.1)
                        }
                    }
                },
                _ => a.1.general(
                    "Expected a function or object name after 'cook', but found: "@ + token_debug(
                        a.1.current,
                    ),
                ),
            }
        }
    }

    /// `gyatt library`.
    pub open spec fn import_decl(self) -> Step<StmtView> {
        let line = self.line();
        let a = self.expect(TokenView::Gyatt);
        if a.0 is Err {
            fail(a)
        } else {
            match a.1.current {
                TokenView::Ident(library) => {
                    let b = a.1.advance();
                    if b.0 is Err {
                        fail(b)
                    } else {
                        (Ok(StmtView::Import { library, line }), b.1)
                    }
                },
                _ => a.1.general(
                    "Expected a library name after 'gyatt', found "@ + token_debug(a.1.current),
                ),
            }
        }
    }

    /// `( condition ) word`, which opens a loop after `skibidi` and a
    /// conditional after `sus`: the condition, and the state before the
    /// first statement.
    pub open spec fn condition(self, word: TokenView) -> Step<ExprView>
        decreases self.measure(), 3int,
    {
        let a = self.expect(TokenView::LeftParen);
        if a.0 is Err {
            fail(a)
        } else {
            let c = a.1.expression();
            if c.0 is Err {
                fail(c)
            } else {
                let b = c.1.expect(TokenView::RightParen);
                if b.0 is Err {
                    fail(b)
                } else {
                    let d = b.1.expect(word);
                    if d.0 is Err {
                        fail(d)
                    } else {
                        (Ok(c.0->Ok_0), d.1)
                    }
                }
            }
        }
    }

    /// `skibidi ( condition ) do statements slay`.
    pub open spec fn while_loop(self) -> Step<StmtView>
        decreases self.measure(), 4int,
    {
        let line = self.line();
        let a = self.expect(TokenView::Skibidi);
        if a.0 is Err {
            fail(a)
        } else {
            let c = a.1.condition(TokenView::Do);
            if c.0 is Err {
                fail(c)
            } else if !(c.1.measure() < self.measure()) {
                stuck(c.1)
            } else {
                let body = c.1.block(Seq::empty(), Until::Slay);
                if body.0 is Err {
                    fail(body)
                } else {
                    let e = body.1.expect(TokenView::Slay);
                    if e.0 is Err {
                        fail(e)
                    } else {
                        (
                            Ok(StmtView::While { condition: c.0->Ok_0, body: body.0->Ok_0, line }),
                            e.1,
                        )
                    }
                }
            }
        }
    }

    /// `goon ( name in [ items ] ) do statements slay`. What follows `in`
    /// must be written as a list literal.
    pub open spec fn for_loop(self) -> Step<StmtView>
        decreases self.measure(), 4int,
    {
        let line = self.line();
        let a = self.advance();
        if a.0 is Err {
            fail(a)
        } else {
            let b = a.1.expect(TokenView::LeftParen);
            if b.0 is Err {
                fail(b)
            } else {
                match b.1.current {
                    TokenView::Ident(iterator) => {
                        let c = b.1.advance();
                        if c.0 is Err {
                            fail(c)
                        } else {
                            let d = c.1.expect(TokenView::In);
                            if d.0 is Err {
                                fail(d)
                            } else if !(d.1.measure() < self.measure()) {
                                stuck(d.1)
                            } else {
                                let list = d.1.expression();
                                if list.0 is Err {
                                    fail(list)
                                } else if !(list.0->Ok_0 is List) {
                                    list.1.general("Expected list after 'in'"@)
                                } else {
                                    let e = list.1.expect(TokenView::RightParen);
                                    if e.0 is Err {
                                        fail(e)
                                    } else {
                                        let f = e.1.expect(TokenView::Do);
                                        if f.0 is Err {
                                            fail(f)
                                        } else if !(f.1.measure() < self.measure()) {
                                            stuck(f.1)
                                        } else {
                                            let body = f.1.block(Seq::empty(), Until::Slay);
                                            if body.0 is Err {
                                                fail(body)
                                            } else {
                                                let g = body.1.expect(TokenView::Slay);
                                                if g.0 is Err {
                                                    fail(g)
                                                } else {
                                                    (
                                                        Ok(
                                                            StmtView::ForLoop {
                                                                iterator,
                                                                collection: list.0->Ok_0,
                                                                body: body.0->Ok_0,
                                                                line,
                                                            },
                                                        ),
                                                        g.1,
                                                    )
                                                }
                                            }
                                        }
                                    }
                                }
                            }
                        }
                    },
                    _ => b.1.general("Expected iterator variable name"@),
                }
            }
        }
    }

    /// The `ick statements` that may follow the first branch of a
    /// conditional.
    pub open spec fn else_branch(self) -> Step<Option<Seq<StmtView>>>
        decreases self.measure(), 7int,
    {
        if self.current == TokenView::Ick {
            let a = self.advance();
            if a.0 is Err {
                fail(a)
            } else {
                let b = a.1.block(Seq::empty(), Until::Slay);
                if b.0 is Err {
                    fail(b)
                } else {
                    (Ok(Some(b.0->Ok_0)), b.1)
                }
            }
        } else {
            (Ok(None), self)
        }
    }

    /// `sus ( condition ) then statements slay`, with `ick statements`
    /// before `slay` at will.
    pub open spec fn if_statement(self) -> Step<StmtView>
        decreases self.measure(), 4int,
    {
        let line = self.line();
        let a = self.expect(TokenView::Suspect);
        if a.0 is Err {
            fail(a)
        } else {
            let c = a.1.condition(TokenView::Then);
            if c.0 is Err {
                fail(c)
            } else if !(c.1.measure() < self.measure()) {
                stuck(c.1)
            } else {
                let first = c.1.block(Seq::empty(), Until::SlayOrIck);
                if first.0 is Err {
                    fail(first)
                } else if !(first.1.measure() < self.measure()) {
                    stuck(first.1)
                } else {
                    let second = first.1.else_branch();
                    if second.0 is Err {
                        fail(second)
                    } else {
                        let e = second.1.expect(TokenView::Slay);
                        if e.0 is Err {
                            fail(e)
                        } else {
                            (
                                Ok(
                                    StmtView::If {
                                        condition: c.0->Ok_0,
                                        then_branch: first.0->Ok_0,
                                        else_branch: second.0->Ok_0,
                                        line,
                                    },
                                ),
                                e.1,
                            )
                        }
                    }
                }
            }
        }
    }

    /// `blud value`.
    pub open spec fn return_statement(self) -> Step<StmtView>
        decreases self.measure(), 4int,
    {
        let line = self.line();
        let a = self.expect(TokenView::Blud);
        if a.0 is Err {
            fail(a)
        } else {
            let v = a.1.expression();
            if v.0 is Err {
                fail(v)
            } else {
                (Ok(StmtView::Return { value: v.0->Ok_0, line }), v.1)
            }
        }
    }

    /// `ghost`.
    pub open spec fn continue_statement(self) -> Step<StmtView> {
        let line = self.line();
        let a = self.expect(TokenView::GhostKeyword);
        if a.0 is Err {
            fail(a)
        } else {
            (Ok(StmtView::Continue { line }), a.1)
        }
    }
}


/// Reads tokens from a lexer and builds statements from them.
pub struct Parser<'a> {
    lexer: &'a mut Lexer,
    current_token: Token,
}

impl<'a> View for Parser<'a> {
    type V = ParserView;

    closed spec fn view(&self) -> ParserView {
        ParserView { lexer: (*self.lexer)@, current: self.current_token@ }
    }
}

/// A step without a value, as plain values.
pub open spec fn unit_step(r: Result<(), ParseError>, s: ParserView) -> Step<()> {
    (
        match r {
            Ok(_) => Ok(()),
            Err(e) => Err(e@),
        },
        s,
    )
}

/// A step that gives an expression, as plain values.
pub open spec fn expr_step(r: Result<Expr, ParseError>, s: ParserView) -> Step<ExprView> {
    (
        match r {
            Ok(e) => Ok(e@),
            Err(e) => Err(e@),
        },
        s,
    )
}

/// A step that gives expressions, as plain values.
pub open spec fn exprs_step(r: Result<Vec<Expr>, ParseError>, s: ParserView) -> Step<
    Seq<ExprView>,
> {
    (
        match r {
            Ok(v) => Ok(exprs_view(v@)),
            Err(e) => Err(e@),
        },
        s,
    )
}

/// A step that gives a statement, as plain values.
pub open spec fn stmt_step(r: Result<Stmt, ParseError>, s: ParserView) -> Step<StmtView> {
    (
        match r {
            Ok(e) => Ok(e@),
            Err(e) => Err(e@),
        },
        s,
    )
}

/// A step that gives statements, as plain values.
pub open spec fn stmts_step(r: Result<Vec<Stmt>, ParseError>, s: ParserView) -> Step<
    Seq<StmtView>,
> {
    (
        match r {
            Ok(v) => Ok(stmts_view(v@)),
            Err(e) => Err(e@),
        },
        s,
    )
}

impl<'a> Parser<'a> {
    /// A parser on `lexer`, with the first token read.
    pub fn new(lexer: &'a mut Lexer) -> (parser: Result<Parser<'a>, ParseError>)
        ensures
            match parser {
                Ok(p) => old(lexer)@.next_token().0 == Ok::<TokenView, ErrorView>(p@.current)
                    && p@.lexer == old(lexer)@.next_token().1,
                Err(e) => old(lexer)@.next_token().0 == Err::<TokenView, ErrorView>(e@),
            },
    {
        match lexer.next_token() {
            Ok(current_token) => Ok(Parser { lexer, current_token }),
            Err(e) => Err(e),
        }
    }

    /// Replaces the lookahead token by the next token of the input.
    pub fn next_token(&mut self) -> (r: Result<(), ParseError>)
        ensures
            unit_step(r, final(self)@) == old(self)@.advance(),
    {
        match self.lexer.next_token() {
            Ok(token) => {
                self.current_token = token;
                Ok(())
            },
            Err(e) => Err(e),
        }
    }

    /// Steps over the lookahead token if it is `expected`, and fails
    /// otherwise.
    pub fn expect_token(&mut self, expected: Token) -> (r: Result<(), ParseError>)
        ensures
            unit_step(r, final(self)@) == old(self)@.expect(expected@),
    {
        if self.current_token.same(&expected) {
            self.next_token()
        } else {
            Err(
                ParseError::UnexpectedToken {
                    expected,
                    found: self.current_token.clone(),
                    line: self.lexer.line(),
                },
            )
        }
    }

    /// A general error on the lookahead token's line.
    fn general(&self, message: String) -> (e: ParseError)
        ensures
            e@ == (ErrorView::GeneralError { line: self@.line(), message: message@ }),
    {
        ParseError::GeneralError { line: self.lexer.line(), message }
    }

    /// The error for a lookahead token that no rule accepts.
    fn unknown(&self) -> (e: ParseError)
        ensures
            e@ == (ErrorView::UnknownUnexpectedToken { found: self@.current, line: self@.line() }),
    {
        ParseError::UnknownUnexpectedToken {
            found: self.current_token.clone(),
            line: self.lexer.line(),
        }
    }

    /// Whether a sequence of statements ends before the lookahead token.
    fn at_end(&self, until: Until) -> (b: bool)
        ensures
            b == self@.at_end(until),
    {
        match until {
            Until::End => matches!(self.current_token, Token::EOF),
            Until::Slay => matches!(self.current_token, Token::Slay | Token::EOF),
            Until::SlayOrIck => matches!(
                self.current_token,
                Token::Ick | Token::Slay | Token::EOF
            ),
        }
    }

    /// Parses the whole input: statements up to its end.
    pub fn parse(&mut self) -> (r: Result<Vec<Stmt>, ParseError>)
        ensures
            stmts_step(r, final(self)@) == old(self)@.block(Seq::empty(), Until::End),
    {
        self.parse_block(Until::End)
    }

    /// Parses statements up to the end that `until` names.
    pub fn parse_block(&mut self, until: Until) -> (r: Result<Vec<Stmt>, ParseError>)
        ensures
            stmts_step(r, final(self)@) == old(self)@.block(Seq::empty(), until),
            final(self)@.measure() <= old(self)@.measure(),
        decreases old(self)@.measure(), 6int,
    {
        let mut statements: Vec<Stmt> = Vec::new();
        assert(stmts_view(statements@) =~= Seq::empty());
        while !self.at_end(until)
            invariant
                self@.block(stmts_view(statements@), until) == old(self)@.block(
                    Seq::empty(),
                    until,
                ),
                self@.measure() <= old(self)@.measure(),
            decreases self@.measure(),
        {
            match self.parse_statement() {
                Ok(statement) => {
                    proof {
                        lemma_stmts_view_push(statements@, statement);
                    }
                    statements.push(statement);
                },
                Err(e) => {
                    return Err(e);
                },
            }
        }
        Ok(statements)
    }

    /// Parses one statement, chosen by the lookahead token.
    #[verifier::rlimit(100)]
    pub fn parse_statement(&mut self) -> (r: Result<Stmt, ParseError>)
        ensures
            stmt_step(r, final(self)@) == old(self)@.statement(),
            final(self)@.measure() <= old(self)@.measure(),
            r is Ok ==> final(self)@.measure() < old(self)@.measure(),
        decreases old(self)@.measure(), 5int,
    {
        match self.current_token {
            Token::Pookie => self.parse_class(),
            Token::Cookable => self.parse_function(),
            Token::Ident(_) => self.parse_variable_assign_or_expression(),
            Token::Cook => self.parse_cook_statement(),
            Token::Gyatt => self.parse_import_statement(),
            Token::Skibidi => self.parse_while(),
            Token::Goon => self.parse_for_loop(),
            Token::Suspect => self.parse_if(),
            Token::Blud => self.parse_return(),
            Token::GhostKeyword => self.parse_continue(),
            _ => Err(self.unknown()),
        }
    }

    /// The number that the lookahead token holds, if it is a number.
    fn current_number(&self) -> (number: Option<i64>)
        ensures
            match number {
                Some(n) => self@.current == TokenView::Number(n),
                None => !(self@.current is Number),
            },
    {
        match &self.current_token {
            Token::Number(n) => Some(*n),
            _ => None,
        }
    }

    /// The name that the lookahead token holds, if it is an identifier.
    fn current_name(&self) -> (name: Option<String>)
        ensures
            match name {
                Some(n) => self@.current == TokenView::Ident(n@),
                None => !(self@.current is Ident),
            },
    {
        match &self.current_token {
            Token::Ident(name) => Some(name.clone()),
            _ => None,
        }
    }

    /// Parses the methods of a class body.
    fn parse_methods(&mut self) -> (r: Result<(Vec<Stmt>, bool), ParseError>)
        ensures
            match r {
                Ok((v, found)) => old(self)@.methods(Seq::empty()).0 == Ok::<
                    Seq<StmtView>,
                    ErrorView,
                >(stmts_view(v@)) && found == has_constructor(stmts_view(v@)),
                Err(e) => old(self)@.methods(Seq::empty()).0 == Err::<Seq<StmtView>, ErrorView>(
                    e@,
                ),
            },
            final(self)@ == old(self)@.methods(Seq::empty()).1,
            final(self)@.measure() <= old(self)@.measure(),
        decreases old(self)@.measure(), 6int,
    {
        let mut methods: Vec<Stmt> = Vec::new();
        let mut found = false;
        assert(stmts_view(methods@) =~= Seq::empty());
        while !self.at_end(Until::Slay)
            invariant
                self@.methods(stmts_view(methods@)) == old(self)@.methods(Seq::empty()),
                self@.measure() <= old(self)@.measure(),
                found == has_constructor(stmts_view(methods@)),
            decreases self@.measure(),
        {
            match self.parse_function() {
                Ok(method) => {
                    let is_it = match &method {
                        Stmt::Function { name, .. } => *name == String::from_str("__edge__"),
                        _ => false,
                    };
                    proof {
                        lemma_stmts_view_push(methods@, method);
                        let before = stmts_view(methods@);
                        let after = before.push(method@);
                        if has_constructor(before) {
                            let i = choose|i: int|
                                0 <= i < before.len() && is_constructor(#[trigger] before[i]);
                            assert(is_constructor(after[i]));
                        }
                        if is_it {
                            assert(is_constructor(after[after.len() - 1]));
                        }
                        if has_constructor(after) {
                            let i = choose|i: int|
                                0 <= i < after.len() && is_constructor(#[trigger] after[i]);
                            if i < before.len() {
                            }
                        }
                    }
                    if is_it {
                        found = true;
                    }
                    methods.push(method);
                },
                Err(e) => {
                    return Err(e);
                },
            }
        }
        Ok((methods, found))
    }

    /// Parses `pookie Name ( ) methods slay`.
    pub fn parse_class(&mut self) -> (r: Result<Stmt, ParseError>)
        ensures
            stmt_step(r, final(self)@) == old(self)@.class_decl(),
            final(self)@.measure() <= old(self)@.measure(),
            r is Ok ==> final(self)@.measure() < old(self)@.measure(),
        decreases old(self)@.measure(), 4int,
    {
        let line = self.lexer.line();
        self.expect_token(Token::Pookie)?;
        let name = match self.current_name() {
            Some(name) => name,
            None => {
                return Err(self.general(String::from_str("Expected class name")));
            },
        };
        self.next_token()?;
        self.expect_token(Token::LeftParen)?;
        self.expect_token(Token::RightParen)?;
        let (functions, found) = self.parse_methods()?;
        if !found {
            return Err(self.general(String::from_str("Class must have an __edge__ method")));
        }
        self.expect_token(Token::Slay)?;
        Ok(Stmt::Class { name, functions, line })
    }

    /// Parses `cookable name ( ) statements slay`.
    pub fn parse_function(&mut self) -> (r: Result<Stmt, ParseError>)
        ensures
            stmt_step(r, final(self)@) == old(self)@.function_decl(),
            final(self)@.measure() <= old(self)@.measure(),
            r is Ok ==> final(self)@.measure() < old(self)@.measure(),
            r is Ok ==> r->Ok_0 is Function,
        decreases old(self)@.measure(), 4int,
    {
        let line = self.lexer.line();
        self.expect_token(Token::Cookable)?;
        let name = match self.current_name() {
            Some(name) => name,
            None => {
                let mut message = String::from_str("found token: ");
                message.append(self.current_token.debug().as_str());
                message.append(", expected function name");
                return Err(self.general(message));
            },
        };
        self.next_token()?;
        self.expect_token(Token::LeftParen)?;
        self.expect_token(Token::RightParen)?;
        let body = self.parse_block(Until::Slay)?;
        self.expect_token(Token::Slay)?;
        Ok(Stmt::Function { name, body, line })
    }

    /// Parses the optional `. property` after the first name of a statement.
    fn parse_target(&mut self, name: String) -> (r: Result<(Option<Box<Expr>>, String), ParseError>)
        ensures
            match r {
                Ok((object, target)) => old(self)@.target(name@).0 == Ok::<
                    (Option<Box<ExprView>>, Seq<char>),
                    ErrorView,
                >((crate::ast::object_view(object), target@)),
                Err(e) => old(self)@.target(name@).0 == Err::<
                    (Option<Box<ExprView>>, Seq<char>),
                    ErrorView,
                >(e@),
            },
            final(self)@ == old(self)@.target(name@).1,
            final(self)@.measure() <= old(self)@.measure(),
    {
        if matches!(self.current_token, Token::Dot) {
            self.next_token()?;
            let property = match self.current_name() {
                Some(property) => property,
                None => {
                    return Err(
                        self.general(String::from_str("Expected identifier after 'self.'")),
                    );
                },
            };
            self.next_token()?;
            Ok((Some(Box::new(Expr::Ident(name))), property))
        } else {
            Ok((None, name))
        }
    }

    /// Parses a statement that starts with a name: an assignment, or the
    /// name followed by an expression.
    pub fn parse_variable_assign_or_expression(&mut self) -> (r: Result<Stmt, ParseError>)
        ensures
            stmt_step(r, final(self)@) == old(self)@.assignment(),
            final(self)@.measure() <= old(self)@.measure(),
            r is Ok ==> final(self)@.measure() < old(self)@.measure(),
        decreases old(self)@.measure(), 4int,
    {
        let line = self.lexer.line();
        let first = match self.current_name() {
            Some(first) => first,
            None => {
                return Err(ParseError::Other(String::from_str("Expected identifier")));
            },
        };
        self.next_token()?;
        let (object, name) = self.parse_target(first)?;
        if matches!(self.current_token, Token::Is) {
            self.next_token()?;
            let value = self.parse_expression()?;
            Ok(Stmt::VariableAssign { name, object, value, line })
        } else {
            let value = self.parse_expression()?;
            Ok(Stmt::Expression { value, line })
        }
    }

    /// Parses an expression.
    pub fn parse_expression(&mut self) -> (r: Result<Expr, ParseError>)
        ensures
            expr_step(r, final(self)@) == old(self)@.expression(),
            final(self)@.measure() <= old(self)@.measure(),
            r is Ok ==> final(self)@.measure() < old(self)@.measure(),
        decreases old(self)@.measure(), 2int,
    {
        self.parse_expression_with_precedence(0)
    }

    /// Parses an expression whose operators all bind at least as tightly as
    /// `min_precedence`.
    pub fn parse_expression_with_precedence(&mut self, min_precedence: u8) -> (r: Result<
        Expr,
        ParseError,
    >)
        ensures
            expr_step(r, final(self)@) == old(self)@.binary(min_precedence),
            final(self)@.measure() <= old(self)@.measure(),
            r is Ok ==> final(self)@.measure() < old(self)@.measure(),
        decreases old(self)@.measure(), 1int,
    {
        let mut left = self.parse_primary()?;
        loop
            invariant
                self@.tail(left@, min_precedence) == old(self)@.binary(min_precedence),
                self@.measure() < old(self)@.measure(),
            decreases self@.measure(),
        {
            match self.get_precedence(&self.current_token) {
                None => {
                    return Ok(left);
                },
                Some(p) => {
                    if p < min_precedence {
                        return Ok(left);
                    }
                    let op = self.current_token.clone();
                    self.next_token()?;
                    let right = self.parse_expression_with_precedence(p + 1)?;
                    left = Expr::BinOp { left: Box::new(left), op, right: Box::new(right) };
                },
            }
        }
    }

    /// How tightly a binary operator binds; `None` for any other token.
    pub fn get_precedence(&self, token: &Token) -> (p: Option<u8>)
        ensures
            p == precedence(token@),
    {
        match token {
            Token::Plus | Token::Minus => Some(1),
            Token::Star | Token::Slash => Some(2),
            Token::Rizz => Some(0),
            Token::GreaterThan | Token::LessThan => Some(1),
            _ => None,
        }
    }

    /// Parses the arguments of a call, after its opening parenthesis.
    fn parse_arguments(&mut self) -> (r: Result<Vec<Expr>, ParseError>)
        ensures
            exprs_step(r, final(self)@) == old(self)@.arguments(),
            final(self)@.measure() <= old(self)@.measure(),
        decreases old(self)@.measure(), 3int,
    {
        let mut args: Vec<Expr> = Vec::new();
        if matches!(self.current_token, Token::RightParen) {
            assert(exprs_view(args@) =~= Seq::empty());
            return Ok(args);
        }
        let first = self.parse_expression()?;
        assert(exprs_view(args@.push(first)) =~= seq![first@]);
        args.push(first);
        while matches!(self.current_token, Token::Comma)
            invariant
                self@.more_arguments(exprs_view(args@)) == old(self)@.arguments(),
                self@.measure() < old(self)@.measure(),
            decreases self@.measure(),
        {
            self.next_token()?;
            let next = self.parse_expression()?;
            proof {
                lemma_exprs_view_push(args@, next);
            }
            args.push(next);
        }
        Ok(args)
    }

    /// Parses `( arguments )` into a call of `name` on `object`.
    fn parse_call(&mut self, name: String, object: Option<Box<Expr>>) -> (r: Result<
        Expr,
        ParseError,
    >)
        ensures
            expr_step(r, final(self)@) == old(self)@.call(name@, crate::ast::object_view(object)),
            final(self)@.measure() <= old(self)@.measure(),
            r is Ok ==> final(self)@.measure() < old(self)@.measure(),
        decreases old(self)@.measure(), 4int,
    {
        self.expect_token(Token::LeftParen)?;
        let args = self.parse_arguments()?;
        self.expect_token(Token::RightParen)?;
        Ok(Expr::FunctionCall { name, object, args })
    }

    /// Parses the members that follow `left`, each after a dot.
    fn parse_chain(&mut self, left: Expr) -> (r: Result<Expr, ParseError>)
        ensures
            expr_step(r, final(self)@) == old(self)@.chain(left@),
            final(self)@.measure() <= old(self)@.measure(),
        decreases old(self)@.measure(), 5int,
    {
        let mut expr = left;
        while matches!(self.current_token, Token::Dot)
            invariant
                self@.chain(expr@) == old(self)@.chain(left@),
                self@.measure() <= old(self)@.measure(),
            decreases self@.measure(),
        {
            self.next_token()?;
            let member = match self.current_name() {
                Some(member) => member,
                None => {
                    return Err(
                        ParseError::UnexpectedToken {
                            expected: Token::Ident(String::from_str("variable name after .")),
                            found: self.current_token.clone(),
                            line: self.lexer.line(),
                        },
                    );
                },
            };
            self.next_token()?;
            let object = Some(Box::new(expr));
            if matches!(self.current_token, Token::LeftParen) {
                expr = self.parse_call(member, object)?;
            } else {
                expr = Expr::ObjectValue { object, name: member };
            }
        }
        Ok(expr)
    }

    /// Parses the elements of a list literal, up to its closing bracket.
    fn parse_list_items(&mut self) -> (r: Result<Vec<Expr>, ParseError>)
        ensures
            exprs_step(r, final(self)@) == old(self)@.list_items(Seq::empty()),
            final(self)@.measure() <= old(self)@.measure(),
        decreases old(self)@.measure(), 3int,
    {
        let mut items: Vec<Expr> = Vec::new();
        assert(exprs_view(items@) =~= Seq::empty());
        while !matches!(self.current_token, Token::RightBracket)
            invariant
                self@.list_items(exprs_view(items@)) == old(self)@.list_items(Seq::empty()),
                self@.measure() <= old(self)@.measure(),
            decreases self@.measure(),
        {
            let item = self.parse_expression()?;
            proof {
                lemma_exprs_view_push(items@, item);
            }
            items.push(item);
            if matches!(self.current_token, Token::Comma) {
                self.next_token()?;
            } else {
                return Ok(items);
            }
        }
        Ok(items)
    }

    /// Parses the arguments of an instantiation, up to its closing
    /// parenthesis.
    fn parse_new_arguments(&mut self) -> (r: Result<Vec<Expr>, ParseError>)
        ensures
            exprs_step(r, final(self)@) == old(self)@.new_arguments(Seq::empty()),
            final(self)@.measure() <= old(self)@.measure(),
        decreases old(self)@.measure(), 3int,
    {
        let mut args: Vec<Expr> = Vec::new();
        assert(exprs_view(args@) =~= Seq::empty());
        while !matches!(self.current_token, Token::RightParen)
            invariant
                self@.new_arguments(exprs_view(args@)) == old(self)@.new_arguments(Seq::empty()),
                self@.measure() <= old(self)@.measure(),
            decreases self@.measure(),
        {
            let arg = self.parse_expression()?;
            proof {
                lemma_exprs_view_push(args@, arg);
            }
            args.push(arg);
            if matches!(self.current_token, Token::Comma) {
                self.next_token()?;
            }
        }
        Ok(args)
    }

    /// Parses an operand.
    #[verifier::rlimit(100)]
    pub fn parse_primary(&mut self) -> (r: Result<Expr, ParseError>)
        ensures
            expr_step(r, final(self)@) == old(self)@.primary(),
            final(self)@.measure() <= old(self)@.measure(),
            r is Ok ==> final(self)@.measure() < old(self)@.measure(),
        decreases old(self)@.measure(), 0int,
    {
        let token = self.current_token.clone();
        match token {
            Token::New => {
                self.next_token()?;
                let class_name = match self.current_name() {
                    Some(class_name) => class_name,
                    None => {
                        return Err(
                            self.general(String::from_str("Expected class name after 'new'")),
                        );
                    },
                };
                self.next_token()?;
                self.expect_token(Token::LeftParen)?;
                let args = self.parse_new_arguments()?;
                self.expect_token(Token::RightParen)?;
                Ok(Expr::NewInstance { class_name, args })
            },
            Token::Minus => {
                self.next_token()?;
                match self.current_number() {
                    Some(n) => {
                        if n == i64::MIN {
                            Err(self.general(String::from_str("Integer literal out of range")))
                        } else {
                            self.next_token()?;
                            Ok(Expr::Number(-n))
                        }
                    },
                    None => {
                        let mut message = String::from_str("Expected a number after '-', found ");
                        message.append(self.current_token.debug().as_str());
                        Err(self.general(message))
                    },
                }
            },
            Token::LeftBracket => {
                self.next_token()?;
                let items = self.parse_list_items()?;
                self.expect_token(Token::RightBracket)?;
                Ok(Expr::List(items))
            },
            Token::Cook => {
                self.next_token()?;
                self.parse_expression()
            },
            Token::Ident(name) => {
                self.next_token()?;
                let expr = self.parse_chain(Expr::Ident(name.clone()))?;
                if matches!(self.current_token, Token::LeftParen) {
                    self.parse_call(name, None)
                } else {
                    Ok(expr)
                }
            },
            Token::Number(n) => {
                self.next_token()?;
                Ok(Expr::Number(n))
            },
            Token::StringLiteral(text) => {
                self.next_token()?;
                Ok(Expr::StringLiteral(text))
            },
            Token::Sigma => {
                self.next_token()?;
                Ok(Expr::Boolean(true))
            },
            Token::Ohio => {
                self.next_token()?;
                Ok(Expr::Boolean(false))
            },
            _ => Err(self.unknown()),
        }
    }

    /// Parses the method calls that follow `left` in a `cook` statement.
    fn parse_cook_chain(&mut self, left: Expr) -> (r: Result<Expr, ParseError>)
        ensures
            expr_step(r, final(self)@) == old(self)@.cook_chain(left@),
            final(self)@.measure() <= old(self)@.measure(),
        decreases old(self)@.measure(), 5int,
    {
        let mut expr = left;
        while matches!(self.current_token, Token::Dot)
            invariant
                self@.cook_chain(expr@) == old(self)@.cook_chain(left@),
                self@.measure() <= old(self)@.measure(),
            decreases self@.measure(),
        {
            self.next_token()?;
            let member = match self.current_name() {
                Some(member) => member,
                None => {
                    return Err(
                        ParseError::UnexpectedToken {
                            expected: Token::Ident(String::from_str("method name after .")),
                            found: self.current_token.clone(),
                            line: self.lexer.line(),
                        },
                    );
                },
            };
            self.next_token()?;
            expr = self.parse_call(member, Some(Box::new(expr)))?;
        }
        Ok(expr)
    }

    /// Parses `cook name`, its method calls and its call.
    pub fn parse_cook_statement(&mut self) -> (r: Result<Stmt, ParseError>)
        ensures
            stmt_step(r, final(self)@) == old(self)@.cook_statement(),
            final(self)@.measure() <= old(self)@.measure(),
            r is Ok ==> final(self)@.measure() < old(self)@.measure(),
        decreases old(self)@.measure(), 4int,
    {
        let line = self.lexer.line();
        self.expect_token(Token::Cook)?;
        let name = match self.current_name() {
            Some(name) => name,
            None => {
                let mut message = String::from_str(
                    "Expected a function or object name after 'cook', but found: ",
                );
                message.append(self.current_token.debug().as_str());
                return Err(self.general(message));
            },
        };
        self.next_token()?;
        let expr = self.parse_cook_chain(Expr::Ident(name.clone()))?;
        if matches!(self.current_token, Token::LeftParen) {
            let value = self.parse_call(name, None)?;
            Ok(Stmt::Expression { value, line })
        } else {
            Ok(Stmt::Expression { value: expr, line })
        }
    }

    /// Parses `gyatt library`.
    pub fn parse_import_statement(&mut self) -> (r: Result<Stmt, ParseError>)
        ensures
            stmt_step(r, final(self)@) == old(self)@.import_decl(),
            final(self)@.measure() <= old(self)@.measure(),
            r is Ok ==> final(self)@.measure() < old(self)@.measure(),
    {
        let line = self.lexer.line();
        self.expect_token(Token::Gyatt)?;
        let library = match self.current_name() {
            Some(library) => library,
            None => {
                let mut message = String::from_str(
                    "Expected a library name after 'gyatt', found ",
                );
                message.append(self.current_token.debug().as_str());
                return Err(self.general(message));
            },
        };
        self.next_token()?;
        Ok(Stmt::Import { library, line })
    }

    /// Parses `( condition )` and the word that follows it.
    fn parse_condition(&mut self, word: Token) -> (r: Result<Expr, ParseError>)
        ensures
            expr_step(r, final(self)@) == old(self)@.condition(word@),
            final(self)@.measure() <= old(self)@.measure(),
            r is Ok ==> final(self)@.measure() < old(self)@.measure(),
        decreases old(self)@.measure(), 3int,
    {
        self.expect_token(Token::LeftParen)?;
        let condition = self.parse_expression()?;
        self.expect_token(Token::RightParen)?;
        self.expect_token(word)?;
        Ok(condition)
    }

    /// Parses `skibidi ( condition ) do statements slay`.
    pub fn parse_while(&mut self) -> (r: Result<Stmt, ParseError>)
        ensures
            stmt_step(r, final(self)@) == old(self)@.while_loop(),
            final(self)@.measure() <= old(self)@.measure(),
            r is Ok ==> final(self)@.measure() < old(self)@.measure(),
        decreases old(self)@.measure(), 4int,
    {
        let line = self.lexer.line();
        self.expect_token(Token::Skibidi)?;
        let condition = self.parse_condition(Token::Do)?;
        let body = self.parse_block(Until::Slay)?;
        self.expect_token(Token::Slay)?;
        Ok(Stmt::While { condition, body, line })
    }

    /// Parses `goon ( name in [ items ] ) do statements slay`.
    pub fn parse_for_loop(&mut self) -> (r: Result<Stmt, ParseError>)
        ensures
            stmt_step(r, final(self)@) == old(self)@.for_loop(),
            final(self)@.measure() <= old(self)@.measure(),
            r is Ok ==> final(self)@.measure() < old(self)@.measure(),
        decreases old(self)@.measure(), 4int,
    {
        let line = self.lexer.line();
        self.next_token()?;
        self.expect_token(Token::LeftParen)?;
        let iterator = match self.current_name() {
            Some(iterator) => iterator,
            None => {
                return Err(self.general(String::from_str("Expected iterator variable name")));
            },
        };
        self.next_token()?;
        self.expect_token(Token::In)?;
        let collection = self.parse_expression()?;
        if !matches!(collection, Expr::List(_)) {
            return Err(self.general(String::from_str("Expected list after 'in'")));
        }
        self.expect_token(Token::RightParen)?;
        self.expect_token(Token::Do)?;
        let body = self.parse_block(Until::Slay)?;
        self.expect_token(Token::Slay)?;
        Ok(Stmt::ForLoop { iterator, collection, body, line })
    }

    /// Parses the `ick statements` that may follow the first branch of a
    /// conditional.
    fn parse_else_branch(&mut self) -> (r: Result<Option<Vec<Stmt>>, ParseError>)
        ensures
            match r {
                Ok(Some(v)) => old(self)@.else_branch().0 == Ok::<
                    Option<Seq<StmtView>>,
                    ErrorView,
                >(Some(stmts_view(v@))),
                Ok(None) => old(self)@.else_branch().0 == Ok::<Option<Seq<StmtView>>, ErrorView>(
                    None,
                ),
                Err(e) => old(self)@.else_branch().0 == Err::<Option<Seq<StmtView>>, ErrorView>(
                    e@,
                ),
            },
            final(self)@ == old(self)@.else_branch().1,
            final(self)@.measure() <= old(self)@.measure(),
        decreases old(self)@.measure(), 7int,
    {
        if matches!(self.current_token, Token::Ick) {
            self.next_token()?;
            let statements = self.parse_block(Until::Slay)?;
            Ok(Some(statements))
        } else {
            Ok(None)
        }
    }

    /// Parses `sus ( condition ) then statements slay`, with its optional
    /// second branch.
    pub fn parse_if(&mut self) -> (r: Result<Stmt, ParseError>)
        ensures
            stmt_step(r, final(self)@) == old(self)@.if_statement(),
            final(self)@.measure() <= old(self)@.measure(),
            r is Ok ==> final(self)@.measure() < old(self)@.measure(),
        decreases old(self)@.measure(), 4int,
    {
        let line = self.lexer.line();
        self.expect_token(Token::Suspect)?;
        let condition = self.parse_condition(Token::Then)?;
        let then_branch = self.parse_block(Until::SlayOrIck)?;
        let else_branch = self.parse_else_branch()?;
        self.expect_token(Token::Slay)?;
        Ok(Stmt::If { condition, then_branch, else_branch, line })
    }

    /// Parses `blud value`.
    pub fn parse_return(&mut self) -> (r: Result<Stmt, ParseError>)
        ensures
            stmt_step(r, final(self)@) == old(self)@.return_statement(),
            final(self)@.measure() <= old(self)@.measure(),
            r is Ok ==> final(self)@.measure() < old(self)@.measure(),
        decreases old(self)@.measure(), 4int,
    {
        let line = self.lexer.line();
        self.expect_token(Token::Blud)?;
        let value = self.parse_expression()?;
        Ok(Stmt::Return { value, line })
    }

    /// Parses `ghost`.
    pub fn parse_continue(&mut self) -> (r: Result<Stmt, ParseError>)
        ensures
            stmt_step(r, final(self)@) == old(self)@.continue_statement(),
            final(self)@.measure() <= old(self)@.measure(),
            r is Ok ==> final(self)@.measure() < old(self)@.measure(),
    {
        let line = self.lexer.line();
        self.expect_token(Token::GhostKeyword)?;
        Ok(Stmt::Continue { line })
    }
}

} // verus!
