use vstd::prelude::*;
use crate::ast::SQLExpr;
use crate::error::ParserError;
use crate::tokenizer::SQLTokenizer;

verus! {

/// What one operation of a dialect leaves behind: the dialect, the tokenizer
/// and the operation's result.
pub struct Step<P, K, R> {
    pub parser: P,
    pub tokens: K,
    pub result: R,
}

/// The two operations by which a dialect plugs into the expression parser.
///
/// A dialect is described by two functions of its state and the tokenizer's,
/// `prefix` and `infix`; the operations are held to them. The driver in
/// `pratt` depends on nothing else of a dialect.
pub trait SQLParser<TokenType, ExprType>: Sized {
    /// The tokenizer that this dialect reads from.
    type Tokens: SQLTokenizer<TokenType>;

    /// What `parse_prefix` does from this state.
    spec fn prefix(&self, tokens: Self::Tokens) -> Step<
        Self,
        Self::Tokens,
        Result<Box<SQLExpr<ExprType>>, ParserError<TokenType>>,
    >;

    /// What `parse_infix` does from this state.
    spec fn infix(
        &self,
        tokens: Self::Tokens,
        left: Box<SQLExpr<ExprType>>,
        precedence: usize,
    ) -> Step<Self, Self::Tokens, Result<Option<Box<SQLExpr<ExprType>>>, ParserError<TokenType>>>;

    /// An infix construct holds at least one token: where `infix` gives a
    /// node, it has consumed input.
    proof fn lemma_infix_consumes(
        &self,
        tokens: Self::Tokens,
        left: Box<SQLExpr<ExprType>>,
        precedence: usize,
    )
        requires
            self.infix(tokens, left, precedence).result matches Ok(Some(_)),
        ensures
            self.infix(tokens, left, precedence).tokens.remaining() < tokens.remaining(),
    ;

    /// Parses one prefix construct (a literal, an identifier, a function
    /// call, a parenthesised expression, or one of the dialect's own) and
    /// stops before any infix operator.
    fn parse_prefix(&mut self, tokens: &mut Self::Tokens) -> (r: Result<
        Box<SQLExpr<ExprType>>,
        ParserError<TokenType>,
    >)
        ensures
            (Step { parser: *final(self), tokens: *final(tokens), result: r }) == old(self).prefix(
                *old(tokens),
            ),
    ;

    /// Parses the infix construct that follows `left` and returns the node
    /// that combines them, or declines with `None`. `precedence` is the
    /// binding power of the construct's first token.
    fn parse_infix(
        &mut self,
        tokens: &mut Self::Tokens,
        left: Box<SQLExpr<ExprType>>,
        precedence: usize,
    ) -> (r: Result<Option<Box<SQLExpr<ExprType>>>, ParserError<TokenType>>)
        ensures
            (Step { parser: *final(self), tokens: *final(tokens), result: r }) == old(self).infix(
                *old(tokens),
                left,
                precedence,
            ),
    ;
}

} // verus!
