//! Front end of a small language toolchain: an error-tolerant
//! recursive-descent / Pratt parser that turns source text into an
//! owned, fixed-shape syntax tree with sentinel placeholders, plus a
//! typed, zero-copy projection layer over that tree.

pub mod token;
pub mod errors;
pub mod ast;
pub mod lexer;
pub mod parser;
pub mod grammar;
pub mod views;
pub mod visitor;
