//! An interpreter for a small turtle-graphics language: a lexer, a parser
//! that builds a syntax tree, and an evaluator that walks it.
//!
//! A script is read in two passes. [`lexer`] turns its text into tokens, and
//! [`segmenter`] cuts the tokens into one group for each statement and hands
//! each group to one of the [`parsers`]. [`grammar`] says what the tokens
//! mean; the parsers are proved to read exactly that.
//!
//! The [`evaluator`] runs a program one step at a time, as [`semantics`]
//! describes. It works with integers and truth values by itself. Numbers with
//! a fraction it only carries, as bit patterns: where a step needs arithmetic
//! on them, or a line on the drawing surface, the step ends with a request,
//! and the next step takes the answer. Whoever drives the evaluator answers
//! the requests and decides how long to go on.
//!
//! [`balance`], [`scoping`] and [`expressions`] hold what is proved of every
//! run: that no step is ever short of a value, that a call gives back the
//! variables that its parameters displaced, and that the steps work out of
//! an expression what its tree says.

pub mod arithmetic;
pub mod ast;
pub mod balance;
pub mod commands;
pub mod error;
pub mod evaluator;
pub mod expressions;
pub mod grammar;
pub mod heap;
pub mod lexer;
pub mod number;
pub mod parsers;
pub mod program;
pub mod scoping;
pub mod segmenter;
pub mod semantics;
pub mod table;
pub mod turtle;
pub mod text;
pub mod tokens;
pub mod transpiler;
