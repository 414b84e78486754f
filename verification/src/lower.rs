//! Lowering: from parse trees to the syntax tree.
//!
//! For every kind of node a function of the mathematical model says what
//! the node lowers to, and an executable function computes it.

pub mod common;
pub mod content;
pub mod expr;
pub mod header;
pub mod lists;
pub mod literal;
pub mod math;
pub mod pattern;
pub mod statement;
