//! Parser for the SATySFi typesetting language: a recogniser that turns source
//! text into a tree of matched spans, and the lowering of that tree into a
//! typed syntax tree whose nodes carry their source ranges.

pub mod position;
pub mod rule;
pub mod tree;
pub mod peg;
pub mod notation;
pub mod grammar;
pub mod parser;
pub mod error;
pub mod text;
pub mod ast;
pub mod lower;
pub mod node;
pub mod laws;
