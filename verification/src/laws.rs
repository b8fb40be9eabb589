use vstd::prelude::*;
use crate::ast::SQLExpr;
use crate::dialect::SQLParser;
use crate::error::{ParserError, TokenizerError};
use crate::pratt::{climb, done, infix_due, parsed};
use crate::tokenizer::SQLTokenizer;

verus! {

/// Where the input ends behind the prefix construct, the parse gives the node
/// of `parse_prefix` and leaves dialect and tokenizer as `parse_prefix` left
/// them: nothing more is consumed.
pub proof fn lemma_prefix_only<TokenType, ExprType, P: SQLParser<TokenType, ExprType>>(
    parser: P,
    tokens: P::Tokens,
    min_precedence: usize,
)
    requires
        parser.prefix(tokens).result is Ok,
        parser.prefix(tokens).tokens.lookahead() matches Ok(None),
    ensures
        parsed(parser, tokens, min_precedence) == parser.prefix(tokens),
{
}

/// Once the tokenizer reports no further token, the parse ends: the tree
/// built so far is the result, and no operation of the dialect is called
/// again.
pub proof fn lemma_end_of_input_stops<TokenType, ExprType, P: SQLParser<TokenType, ExprType>>(
    parser: P,
    tokens: P::Tokens,
    left: Box<SQLExpr<ExprType>>,
    min_precedence: usize,
)
    requires
        tokens.lookahead() matches Ok(None),
    ensures
        climb(parser, tokens, left, min_precedence) == done(parser, tokens, Ok(left)),
{
}

/// An operator is folded in only if it binds strictly tighter than the
/// threshold: before a token whose binding power is at most `min_precedence`
/// the parse ends with the tree built so far, and the token stays.
pub proof fn lemma_weaker_operator_stops<TokenType, ExprType, P: SQLParser<TokenType, ExprType>>(
    parser: P,
    tokens: P::Tokens,
    left: Box<SQLExpr<ExprType>>,
    min_precedence: usize,
    token: TokenType,
)
    requires
        tokens.lookahead() == Ok::<_, TokenizerError>(Some(token)),
        tokens.binding_power(token) <= min_precedence,
    ensures
        climb(parser, tokens, left, min_precedence) == done(parser, tokens, Ok(left)),
{
}

/// Each fold hands the tree built so far to `parse_infix` as the left
/// operand, with the binding power of the token ahead, and goes on with the
/// node that comes back.
pub proof fn lemma_fold_goes_on<TokenType, ExprType, P: SQLParser<TokenType, ExprType>>(
    parser: P,
    tokens: P::Tokens,
    left: Box<SQLExpr<ExprType>>,
    min_precedence: usize,
    token: TokenType,
    node: Box<SQLExpr<ExprType>>,
)
    requires
        tokens.lookahead() == Ok::<_, TokenizerError>(Some(token)),
        tokens.binding_power(token) > min_precedence,
        parser.infix(tokens, left, tokens.binding_power(token)).result == Ok::<
            _,
            ParserError<TokenType>,
        >(Some(node)),
    ensures
        ({
            let step = parser.infix(tokens, left, tokens.binding_power(token));
            climb(parser, tokens, left, min_precedence) == climb(
                step.parser,
                step.tokens,
                node,
                min_precedence,
            )
        }),
{
}

/// Where the tokenizer announces a token that binds tighter than the
/// threshold and `parse_infix` declines it, the parse ends with
/// `InfixContractViolation`.
pub proof fn lemma_declined_infix_is_violation<TokenType, ExprType, P: SQLParser<TokenType, ExprType>>(
    parser: P,
    tokens: P::Tokens,
    left: Box<SQLExpr<ExprType>>,
    min_precedence: usize,
    token: TokenType,
)
    requires
        tokens.lookahead() == Ok::<_, TokenizerError>(Some(token)),
        tokens.binding_power(token) > min_precedence,
        parser.infix(tokens, left, tokens.binding_power(token)).result == Ok::<
            Option<Box<SQLExpr<ExprType>>>,
            ParserError<TokenType>,
        >(None),
    ensures
        climb(parser, tokens, left, min_precedence).result matches Err(
            ParserError::InfixContractViolation,
        ),
{
}

/// The engine hands a dialect's node back as it got it: where `parse_infix`
/// gives `node` and nothing further is due, `node` is the result, whatever
/// it holds (a dialect's own expression, a dialect's own operator).
pub proof fn lemma_infix_node_kept<TokenType, ExprType, P: SQLParser<TokenType, ExprType>>(
    parser: P,
    tokens: P::Tokens,
    left: Box<SQLExpr<ExprType>>,
    min_precedence: usize,
    token: TokenType,
    node: Box<SQLExpr<ExprType>>,
)
    requires
        tokens.lookahead() == Ok::<_, TokenizerError>(Some(token)),
        tokens.binding_power(token) > min_precedence,
        parser.infix(tokens, left, tokens.binding_power(token)).result == Ok::<
            _,
            ParserError<TokenType>,
        >(Some(node)),
        parser.infix(tokens, left, tokens.binding_power(token)).tokens.lookahead() is Ok,
        infix_due(
            parser.infix(tokens, left, tokens.binding_power(token)).tokens,
            min_precedence,
        ) is None,
    ensures
        ({
            let step = parser.infix(tokens, left, tokens.binding_power(token));
            climb(parser, tokens, left, min_precedence) == done(step.parser, step.tokens, Ok(node))
        }),
{
    let step = parser.infix(tokens, left, tokens.binding_power(token));
    lemma_fold_goes_on(parser, tokens, left, min_precedence, token, node);
    assert(climb(step.parser, step.tokens, node, min_precedence) == done(
        step.parser,
        step.tokens,
        Ok(node),
    ));
}

/// A dialect's own expression comes back with the payload it was made with:
/// where `parse_prefix` gives `Custom(payload)` and the input ends behind
/// it, the parse gives `Custom(payload)`.
pub proof fn lemma_custom_payload_kept<TokenType, ExprType, P: SQLParser<TokenType, ExprType>>(
    parser: P,
    tokens: P::Tokens,
    min_precedence: usize,
    payload: ExprType,
)
    requires
        parser.prefix(tokens).result == Ok::<_, ParserError<TokenType>>(
            Box::new(SQLExpr::Custom(payload)),
        ),
        parser.prefix(tokens).tokens.lookahead() matches Ok(None),
    ensures
        parsed(parser, tokens, min_precedence).result == Ok::<_, ParserError<TokenType>>(
            Box::new(SQLExpr::Custom(payload)),
        ),
{
}

/// A failure of `parse_prefix` is the parse's failure, unchanged.
pub proof fn lemma_prefix_failure_propagates<TokenType, ExprType, P: SQLParser<TokenType, ExprType>>(
    parser: P,
    tokens: P::Tokens,
    min_precedence: usize,
)
    requires
        parser.prefix(tokens).result is Err,
    ensures
        parsed(parser, tokens, min_precedence) == parser.prefix(tokens),
{
}

/// A failure of `parse_infix` is the parse's failure, unchanged.
pub proof fn lemma_infix_failure_propagates<TokenType, ExprType, P: SQLParser<TokenType, ExprType>>(
    parser: P,
    tokens: P::Tokens,
    left: Box<SQLExpr<ExprType>>,
    min_precedence: usize,
    token: TokenType,
    e: ParserError<TokenType>,
)
    requires
        tokens.lookahead() == Ok::<_, TokenizerError>(Some(token)),
        tokens.binding_power(token) > min_precedence,
        parser.infix(tokens, left, tokens.binding_power(token)).result == Err::<
            Option<Box<SQLExpr<ExprType>>>,
            _,
        >(e),
    ensures
        ({
            let step = parser.infix(tokens, left, tokens.binding_power(token));
            climb(parser, tokens, left, min_precedence) == done(step.parser, step.tokens, Err(e))
        }),
{
}

/// A failure of the tokenizer ends the parse where it stands, and the error
/// keeps the tokenizer's message and position.
pub proof fn lemma_tokenizer_failure_propagates<TokenType, ExprType, P: SQLParser<TokenType, ExprType>>(
    parser: P,
    tokens: P::Tokens,
    left: Box<SQLExpr<ExprType>>,
    min_precedence: usize,
    e: TokenizerError,
)
    requires
        tokens.lookahead() == Err::<Option<TokenType>, _>(e),
    ensures
        climb(parser, tokens, left, min_precedence) == done(
            parser,
            tokens,
            Err(ParserError::Lexical { message: e.message, line: e.line, col: e.col }),
        ),
{
}

} // verus!
