//! An evaluator for a small, strict, expression-oriented language whose
//! programs arrive as syntax trees: integers, strings, booleans, pairs,
//! first-class functions, conditionals, sequential bindings and `print`.
//!
//! [`ast`] holds the syntax tree, [`interpreter`] the values, the errors,
//! the environment and the evaluator, [`text`] the numerals and the order
//! of strings. The library does no input or output: `print` writes lines
//! into the context, and the caller hands them on. Calls nest as deep as
//! the caller allows and no deeper, so every evaluation ends.

pub mod ast;
pub mod interpreter;
pub mod text;
