use vstd::prelude::*;
use crate::ast::{ExprView, StmtView};
use crate::cursor::{lemma_advance, lemma_advance_error, no_progress, ParserView, Step, Until};
use crate::error::ErrorView;
use crate::token::TokenView;

verus! {

broadcast use {lemma_advance, lemma_advance_error};

/// A step that is no step backwards and that does not end for want of
/// progress.
pub open spec fn sound<T>(before: ParserView, r: Step<T>) -> bool {
    r.1.measure() <= before.measure() && (r.0 is Err ==> r.0->Err_0 != no_progress())
}

/// A sound step that consumes input whenever it succeeds.
pub open spec fn moves<T>(before: ParserView, r: Step<T>) -> bool {
    sound(before, r) && (r.0 is Ok ==> r.1.measure() < before.measure())
}

/// The one error that is not raised on a line differs from the error for
/// want of progress.
proof fn lemma_messages_differ()
    ensures
        ErrorView::Other("Expected identifier"@) != no_progress(),
{
    reveal_strlit("Expected identifier");
    reveal_strlit("parser made no progress");
    assert("Expected identifier"@.len() != "parser made no progress"@.len());
}

/// A sequence of statements is parsed soundly.
pub proof fn lemma_block(s: ParserView, done: Seq<StmtView>, until: Until)
    ensures
        sound(s, s.block(done, until)),
    decreases s.measure(), 6int,
{
    if !s.at_end(until) {
        lemma_statement(s);
        let r = s.statement();
        if r.0 is Ok {
            lemma_block(r.1, done.push(r.0->Ok_0), until);
        }
    }
}

/// A statement is parsed soundly and consumes input.
pub proof fn lemma_statement(s: ParserView)
    ensures
        moves(s, s.statement()),
    decreases s.measure(), 5int,
{
    match s.current {
        TokenView::Pookie => lemma_class_decl(s),
        TokenView::Cookable => lemma_function_decl(s),
        TokenView::Ident(_) => lemma_assignment(s),
        TokenView::Cook => lemma_cook_statement(s),
        TokenView::Gyatt => lemma_import_decl(s),
        TokenView::Skibidi => lemma_while_loop(s),
        TokenView::Goon => lemma_for_loop(s),
        TokenView::Suspect => lemma_if_statement(s),
        TokenView::Blud => lemma_return_statement(s),
        TokenView::GhostKeyword => lemma_continue_statement(s),
        _ => {},
    }
}

/// The methods of a class are parsed soundly.
pub proof fn lemma_methods(s: ParserView, done: Seq<StmtView>)
    ensures
        sound(s, s.methods(done)),
    decreases s.measure(), 6int,
{
    if !s.at_end(Until::Slay) {
        lemma_function_decl(s);
        let r = s.function_decl();
        if r.0 is Ok {
            lemma_methods(r.1, done.push(r.0->Ok_0));
        }
    }
}

/// A class declaration is parsed soundly and consumes input.
pub proof fn lemma_class_decl(s: ParserView)
    ensures
        moves(s, s.class_decl()),
    decreases s.measure(), 4int,
{
    let a = s.expect(TokenView::Pookie);
    if a.0 is Ok && a.1.current is Ident {
        let b = a.1.advance();
        if b.0 is Ok {
            let c = b.1.expect(TokenView::LeftParen);
            if c.0 is Ok {
                let d = c.1.expect(TokenView::RightParen);
                if d.0 is Ok {
                    lemma_methods(d.1, Seq::empty());
                }
            }
        }
    }
}

/// A function declaration is parsed soundly and consumes input.
pub proof fn lemma_function_decl(s: ParserView)
    ensures
        moves(s, s.function_decl()),
    decreases s.measure(), 4int,
{
    let a = s.expect(TokenView::Cookable);
    if a.0 is Ok && a.1.current is Ident {
        let b = a.1.advance();
        if b.0 is Ok {
            let c = b.1.expect(TokenView::LeftParen);
            if c.0 is Ok {
                let d = c.1.expect(TokenView::RightParen);
                if d.0 is Ok {
                    lemma_block(d.1, Seq::empty(), Until::Slay);
                }
            }
        }
    }
}

/// A statement that starts with a name is parsed soundly and consumes
/// input.
pub proof fn lemma_assignment(s: ParserView)
    ensures
        moves(s, s.assignment()),
    decreases s.measure(), 4int,
{
    lemma_messages_differ();
    match s.current {
        TokenView::Ident(name) => {
            let a = s.advance();
            if a.0 is Ok {
                let t = a.1.target(name);
                if t.0 is Ok {
                    if t.1.current == TokenView::Is {
                        let b = t.1.advance();
                        if b.0 is Ok {
                            lemma_expression(b.1);
                        }
                    } else {
                        lemma_expression(t.1);
                    }
                }
            }
        },
        _ => {},
    }
}

/// An expression is parsed soundly and consumes input.
pub proof fn lemma_expression(s: ParserView)
    ensures
        moves(s, s.expression()),
    decreases s.measure(), 2int,
{
    lemma_binary(s, 0);
}

/// An expression of some precedence is parsed soundly and consumes input.
pub proof fn lemma_binary(s: ParserView, min_precedence: u8)
    ensures
        moves(s, s.binary(min_precedence)),
    decreases s.measure(), 1int,
{
    lemma_primary(s);
    let l = s.primary();
    if l.0 is Ok {
        lemma_tail(l.1, l.0->Ok_0, min_precedence);
    }
}

/// The operators after an operand are parsed soundly.
pub proof fn lemma_tail(s: ParserView, left: ExprView, min_precedence: u8)
    ensures
        sound(s, s.tail(left, min_precedence)),
    decreases s.measure(), 0int,
{
    match crate::parser::precedence(s.current) {
        None => {},
        Some(p) => {
            if p >= min_precedence {
                let a = s.advance();
                if a.0 is Ok {
                    lemma_binary(a.1, (p + 1) as u8);
                    let r = a.1.binary((p + 1) as u8);
                    if r.0 is Ok {
                        lemma_tail(
                            r.1,
                            ExprView::BinOp {
                                left: Box::new(left),
                                op: s.current,
                                right: Box::new(r.0->Ok_0),
                            },
                            min_precedence,
                        );
                    }
                }
            }
        },
    }
}

/// The arguments of a call are parsed soundly.
pub proof fn lemma_arguments(s: ParserView)
    ensures
        sound(s, s.arguments()),
    decreases s.measure(), 3int,
{
    if s.current != TokenView::RightParen {
        lemma_expression(s);
        let e = s.expression();
        if e.0 is Ok {
            lemma_more_arguments(e.1, seq![e.0->Ok_0]);
        }
    }
}

/// The arguments after the first are parsed soundly.
pub proof fn lemma_more_arguments(s: ParserView, done: Seq<ExprView>)
    ensures
        sound(s, s.more_arguments(done)),
    decreases s.measure(), 3int,
{
    if s.current == TokenView::Comma {
        let a = s.advance();
        if a.0 is Ok {
            lemma_expression(a.1);
            let e = a.1.expression();
            if e.0 is Ok {
                lemma_more_arguments(e.1, done.push(e.0->Ok_0));
            }
        }
    }
}

/// A call is parsed soundly and consumes input.
pub proof fn lemma_call(s: ParserView, name: Seq<char>, object: Option<Box<ExprView>>)
    ensures
        moves(s, s.call(name, object)),
    decreases s.measure(), 4int,
{
    let a = s.expect(TokenView::LeftParen);
    if a.0 is Ok {
        lemma_arguments(a.1);
    }
}

/// The members after a name are parsed soundly.
pub proof fn lemma_chain(s: ParserView, left: ExprView)
    ensures
        sound(s, s.chain(left)),
    decreases s.measure(), 5int,
{
    if s.current == TokenView::Dot {
        let a = s.advance();
        if a.0 is Ok {
            match a.1.current {
                TokenView::Ident(member) => {
                    let b = a.1.advance();
                    if b.0 is Ok {
                        if b.1.current == TokenView::LeftParen {
                            lemma_call(b.1, member, Some(Box::new(left)));
                            let c = b.1.call(member, Some(Box::new(left)));
                            if c.0 is Ok {
                                lemma_chain(c.1, c.0->Ok_0);
                            }
                        } else {
                            lemma_chain(
                                b.1,
                                ExprView::ObjectValue {
                                    object: Some(Box::new(left)),
                                    name: member,
                                },
                            );
                        }
                    }
                },
                _ => {},
            }
        }
    }
}

/// The elements of a list literal are parsed soundly.
pub proof fn lemma_list_items(s: ParserView, done: Seq<ExprView>)
    ensures
        sound(s, s.list_items(done)),
    decreases s.measure(), 3int,
{
    if s.current != TokenView::RightBracket {
        lemma_expression(s);
        let e = s.expression();
        if e.0 is Ok && e.1.current == TokenView::Comma {
            let a = e.1.advance();
            if a.0 is Ok {
                lemma_list_items(a.1, done.push(e.0->Ok_0));
            }
        }
    }
}

/// The arguments of an instantiation are parsed soundly.
pub proof fn lemma_new_arguments(s: ParserView, done: Seq<ExprView>)
    ensures
        sound(s, s.new_arguments(done)),
    decreases s.measure(), 3int,
{
    if s.current != TokenView::RightParen {
        lemma_expression(s);
        let e = s.expression();
        if e.0 is Ok {
            if e.1.current == TokenView::Comma {
                let a = e.1.advance();
                if a.0 is Ok {
                    lemma_new_arguments(a.1, done.push(e.0->Ok_0));
                }
            } else {
                lemma_new_arguments(e.1, done.push(e.0->Ok_0));
            }
        }
    }
}

/// An operand is parsed soundly and consumes input.
pub proof fn lemma_primary(s: ParserView)
    ensures
        moves(s, s.primary()),
    decreases s.measure(), 0int,
{
    let a = s.advance();
    match s.current {
        TokenView::New => {
            if a.0 is Ok && a.1.current is Ident {
                let b = a.1.advance();
                if b.0 is Ok {
                    let c = b.1.expect(TokenView::LeftParen);
                    if c.0 is Ok {
                        lemma_new_arguments(c.1, Seq::empty());
                    }
                }
            }
        },
        TokenView::Minus => {},
        TokenView::LeftBracket => {
            if a.0 is Ok {
                lemma_list_items(a.1, Seq::empty());
            }
        },
        TokenView::Cook => {
            if a.0 is Ok {
                lemma_expression(a.1);
            }
        },
        TokenView::Ident(name) => {
            if a.0 is Ok {
                lemma_chain(a.1, ExprView::Ident(name));
                let c = a.1.chain(ExprView::Ident(name));
                if c.0 is Ok && c.1.current == TokenView::LeftParen {
                    lemma_call(c.1, name, None);
                }
            }
        },
        _ => {},
    }
}

/// The method calls of a `cook` statement are parsed soundly.
pub proof fn lemma_cook_chain(s: ParserView, left: ExprView)
    ensures
        sound(s, s.cook_chain(left)),
    decreases s.measure(), 5int,
{
    if s.current == TokenView::Dot {
        let a = s.advance();
        if a.0 is Ok {
            match a.1.current {
                TokenView::Ident(member) => {
                    let b = a.1.advance();
                    if b.0 is Ok {
                        lemma_call(b.1, member, Some(Box::new(left)));
                        let c = b.1.call(member, Some(Box::new(left)));
                        if c.0 is Ok {
                            lemma_cook_chain(c.1, c.0->Ok_0);
                        }
                    }
                },
                _ => {},
            }
        }
    }
}

/// A `cook` statement is parsed soundly and consumes input.
pub proof fn lemma_cook_statement(s: ParserView)
    ensures
        moves(s, s.cook_statement()),
    decreases s.measure(), 4int,
{
    let a = s.expect(TokenView::Cook);
    if a.0 is Ok {
        match a.1.current {
            TokenView::Ident(name) => {
                let b = a.1.advance();
                if b.0 is Ok {
                    lemma_cook_chain(b.1, ExprView::Ident(name));
                    let c = b.1.cook_chain(ExprView::Ident(name));
                    if c.0 is Ok && c.1.current == TokenView::LeftParen {
                        lemma_call(c.1, name, None);
                    }
                }
            },
            _ => {},
        }
    }
}

/// An import is parsed soundly and consumes input.
pub proof fn lemma_import_decl(s: ParserView)
    ensures
        moves(s, s.import_decl()),
{
}

/// A condition in parentheses is parsed soundly and consumes input.
pub proof fn lemma_condition(s: ParserView, word: TokenView)
    ensures
        moves(s, s.condition(word)),
    decreases s.measure(), 3int,
{
    let a = s.expect(TokenView::LeftParen);
    if a.0 is Ok {
        lemma_expression(a.1);
    }
}

/// A loop is parsed soundly and consumes input.
pub proof fn lemma_while_loop(s: ParserView)
    ensures
        moves(s, s.while_loop()),
    decreases s.measure(), 4int,
{
    let a = s.expect(TokenView::Skibidi);
    if a.0 is Ok {
        lemma_condition(a.1, TokenView::Do);
        let c = a.1.condition(TokenView::Do);
        if c.0 is Ok {
            lemma_block(c.1, Seq::empty(), Until::Slay);
        }
    }
}

/// An iteration is parsed soundly and consumes input.
pub proof fn lemma_for_loop(s: ParserView)
    ensures
        moves(s, s.for_loop()),
    decreases s.measure(), 4int,
{
    let a = s.advance();
    if a.0 is Ok {
        let b = a.1.expect(TokenView::LeftParen);
        if b.0 is Ok && b.1.current is Ident {
            let c = b.1.advance();
            if c.0 is Ok {
                let d = c.1.expect(TokenView::In);
                if d.0 is Ok {
                    lemma_expression(d.1);
                    let list = d.1.expression();
                    if list.0 is Ok && list.0->Ok_0 is List {
                        let e = list.1.expect(TokenView::RightParen);
                        if e.0 is Ok {
                            let f = e.1.expect(TokenView::Do);
                            if f.0 is Ok {
                                lemma_block(f.1, Seq::empty(), Until::Slay);
                            }
                        }
                    }
                }
            }
        }
    }
}

/// The second branch of a conditional is parsed soundly.
pub proof fn lemma_else_branch(s: ParserView)
    ensures
        sound(s, s.else_branch()),
    decreases s.measure(), 7int,
{
    if s.current == TokenView::Ick {
        let a = s.advance();
        if a.0 is Ok {
            lemma_block(a.1, Seq::empty(), Until::Slay);
        }
    }
}

/// A conditional is parsed soundly and consumes input.
pub proof fn lemma_if_statement(s: ParserView)
    ensures
        moves(s, s.if_statement()),
    decreases s.measure(), 4int,
{
    let a = s.expect(TokenView::Suspect);
    if a.0 is Ok {
        lemma_condition(a.1, TokenView::Then);
        let c = a.1.condition(TokenView::Then);
        if c.0 is Ok {
            lemma_block(c.1, Seq::empty(), Until::SlayOrIck);
            let first = c.1.block(Seq::empty(), Until::SlayOrIck);
            if first.0 is Ok {
                lemma_else_branch(first.1);
            }
        }
    }
}

/// A return is parsed soundly and consumes input.
pub proof fn lemma_return_statement(s: ParserView)
    ensures
        moves(s, s.return_statement()),
    decreases s.measure(), 4int,
{
    let a = s.expect(TokenView::Blud);
    if a.0 is Ok {
        lemma_expression(a.1);
    }
}

/// A continue is parsed soundly and consumes input.
pub proof fn lemma_continue_statement(s: ParserView)
    ensures
        moves(s, s.continue_statement()),
{
}

/// No program ends for want of progress: the parser consumes input with
/// every statement, and gives either the statements of the program or an
/// error of the lexer or of one of its own rules.
pub proof fn parse_makes_progress(s: ParserView)
    ensures
        s.block(Seq::empty(), Until::End).0 is Err ==> s.block(Seq::empty(), Until::End).0->Err_0
            != no_progress(),
{
    lemma_block(s, Seq::empty(), Until::End);
}

} // verus!
