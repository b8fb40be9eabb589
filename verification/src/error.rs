use vstd::prelude::*;
use vstd::std_specs::convert::FromSpecImpl;

verus! {

/// A failure of the tokenizer: what went wrong and where in the input.
#[derive(Debug, Clone, PartialEq, Eq)]
pub struct TokenizerError {
    pub message: String,
    pub line: usize,
    pub col: usize,
}

/// Why a parse failed.
#[derive(Debug, PartialEq, Eq)]
pub enum ParserError<TokenType> {
    /// One of `expected` was required at `line`, `col`; `actual` stood there.
    WrongToken { expected: Vec<TokenType>, actual: TokenType, line: usize, col: usize },
    /// Any other failure, as a message.
    Custom(String),
    /// The input ended where a token was required.
    UnexpectedEndOfInput,
    /// The tokenizer announced an operator that binds tighter than the
    /// threshold in force, and the dialect declined to parse it.
    InfixContractViolation,
    /// The tokenizer failed; message and position are its own.
    Lexical { message: String, line: usize, col: usize },
}

impl<TokenType> From<TokenizerError> for ParserError<TokenType> {
    fn from(e: TokenizerError) -> (r: Self) {
        ParserError::Lexical { message: e.message, line: e.line, col: e.col }
    }
}

impl<TokenType> FromSpecImpl<TokenizerError> for ParserError<TokenType> {
    open spec fn obeys_from_spec() -> bool {
        true
    }

    open spec fn from_spec(e: TokenizerError) -> Self {
        ParserError::Lexical { message: e.message, line: e.line, col: e.col }
    }
}

} // verus!
