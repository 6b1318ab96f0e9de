//! A small dynamically-typed scripting language: a lexer, a recursive-descent
//! parser and a tree-walking evaluator, each with a mathematical model that
//! its executable code is proved against.
//!
//! Source text goes through the crate in one direction:
//!
//! - `tokenizer` turns text into tokens (`token`);
//! - `parser` turns tokens into a syntax tree (`expressions`), as `grammar`
//!   defines it;
//! - `interp` evaluates the tree over values (`value`), as `semantics`
//!   defines it, in a state of scopes and user functions (`table`).
//!
//! The evaluator leaves three things to its host (`host`): the standard
//! functions, the standard methods (`ex_std` provides those of integers and
//! strings) and all computing with floats. What the evaluator decides about
//! operators by itself is in `operators`, and `laws` holds what is proved of
//! evaluation in general.

pub mod text;
pub mod token;
pub mod tokenizer;
pub mod expressions;
pub mod grammar;
pub mod parser;
pub mod value;
pub mod table;
pub mod semantics;
pub mod host;
pub mod operators;
pub mod interp;
pub mod laws;
pub mod ex_std;
