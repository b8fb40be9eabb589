//! The expression core of a SQL parser: a precedence-climbing driver over a
//! tokenizer and a dialect, both supplied by the caller.

pub mod ast;
pub mod error;
pub mod tokenizer;
pub mod dialect;
pub mod pratt;
pub mod laws;
