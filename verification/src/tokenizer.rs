use vstd::prelude::*;
use crate::error::TokenizerError;

verus! {

/// The source of tokens that a parse reads from.
///
/// A tokenizer is described by four functions of its state: what a look
/// ahead gives, the state after one token was consumed, a bound on the tokens
/// left, and the binding power of a token. The operations are held to them.
pub trait SQLTokenizer<TokenType>: Sized {
    /// What a look at the next token gives in this state: the token, `None`
    /// at the end of the input, or the tokenizer's failure.
    spec fn lookahead(&self) -> Result<Option<TokenType>, TokenizerError>;

    /// The state after the next token was consumed.
    spec fn advanced(&self) -> Self;

    /// A bound on the number of tokens still to come.
    spec fn remaining(&self) -> usize;

    /// The binding power of `token`: the higher, the tighter it binds.
    spec fn binding_power(&self, token: TokenType) -> usize;

    /// Consuming a token brings the end of the input nearer.
    proof fn lemma_advance_shrinks(&self)
        requires
            self.lookahead() matches Ok(Some(_)),
        ensures
            self.advanced().remaining() < self.remaining(),
    ;

    /// Returns the next token and leaves it in place.
    fn peek_token(&self) -> (r: Result<Option<TokenType>, TokenizerError>)
        ensures
            r == self.lookahead(),
    ;

    /// Returns the next token and moves past it. At the end of the input,
    /// and on a failure, the state stays as it was.
    fn next_token(&mut self) -> (r: Result<Option<TokenType>, TokenizerError>)
        ensures
            r == old(self).lookahead(),
            *final(self) == (if r matches Ok(Some(_)) {
                old(self).advanced()
            } else {
                *old(self)
            }),
    ;

    /// Returns the binding power of `token`.
    fn precedence(&self, token: &TokenType) -> (p: usize)
        ensures
            p == self.binding_power(*token),
    ;
}

} // verus!
