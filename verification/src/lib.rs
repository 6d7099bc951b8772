//! A small scripting language: a lexer, a recursive-descent parser, and an
//! evaluator that works in steps and rests wherever only the host can go on
//! (printing, reading a line, drawing a number, showing a window).
//!
//! Every function states what it computes over plain values: the lexer and
//! the parser over the characters of the input, the evaluator over a view
//! of its tables and of the work that waits.

pub mod ast;
pub mod cursor;
pub mod error;
pub mod interpreter;
pub mod lexer;
pub mod libs;
pub mod machine;
pub mod parser;
pub mod progress;
pub mod runs;
pub mod semantics;
pub mod text;
pub mod theorems;
pub mod token;
