//! The syntax tree: what a program is made of, each part with the range of
//! source text it was read from.
//!
//! Every type of the tree has a mathematical model, which its `model`
//! function gives: strings become sequences of characters and vectors become
//! sequences.

pub mod content;
pub mod expr;
pub mod header;
pub mod literal;
pub mod pattern;
pub mod statement;
