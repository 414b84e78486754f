//! What holds of the parser as a whole.

pub mod decoding;
pub mod fences;
pub mod ranges;
pub mod strings;
pub mod trees;
