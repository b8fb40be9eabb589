use vstd::prelude::*;
use vstd::std_specs::convert::FromSpec;
use crate::ast::SQLExpr;
use crate::dialect::{SQLParser, Step};
use crate::error::ParserError;
use crate::tokenizer::SQLTokenizer;

verus! {

/// The precedence at which an infix construct is due: the binding power of
/// the next token, where there is one and it binds tighter than
/// `min_precedence`.
pub open spec fn infix_due<TokenType, K: SQLTokenizer<TokenType>>(
    tokens: K,
    min_precedence: usize,
) -> Option<usize> {
    match tokens.lookahead() {
        Ok(Some(token)) => if tokens.binding_power(token) > min_precedence {
            Some(tokens.binding_power(token))
        } else {
            None
        },
        _ => None,
    }
}

/// What the dialect's answer to a due infix construct means for the parse: a
/// node goes on, a refusal is a breach of contract, a failure stays as it is.
pub open spec fn infix_outcome<TokenType, ExprType>(
    answer: Result<Option<Box<SQLExpr<ExprType>>>, ParserError<TokenType>>,
) -> Result<Box<SQLExpr<ExprType>>, ParserError<TokenType>> {
    match answer {
        Ok(Some(node)) => Ok(node),
        Ok(None) => Err(ParserError::InfixContractViolation),
        Err(e) => Err(e),
    }
}

/// A parse that has ended with `result`, in the state given.
pub open spec fn done<TokenType, ExprType, P: SQLParser<TokenType, ExprType>>(
    parser: P,
    tokens: P::Tokens,
    result: Result<Box<SQLExpr<ExprType>>, ParserError<TokenType>>,
) -> Step<P, P::Tokens, Result<Box<SQLExpr<ExprType>>, ParserError<TokenType>>> {
    Step { parser, tokens, result }
}

/// Folds infix constructs into `left` for as long as one is due. A failure
/// of the tokenizer, of the dialect, or a due construct that the dialect
/// declines ends the fold with an error.
pub open spec fn climb<TokenType, ExprType, P: SQLParser<TokenType, ExprType>>(
    parser: P,
    tokens: P::Tokens,
    left: Box<SQLExpr<ExprType>>,
    min_precedence: usize,
) -> Step<P, P::Tokens, Result<Box<SQLExpr<ExprType>>, ParserError<TokenType>>>
    decreases tokens.remaining(),
    via climb_decreases::<TokenType, ExprType, P>
{
    match tokens.lookahead() {
        Err(e) => done(parser, tokens, Err(ParserError::from_spec(e))),
        Ok(_) => match infix_due(tokens, min_precedence) {
            None => done(parser, tokens, Ok(left)),
            Some(precedence) => {
                let step = parser.infix(tokens, left, precedence);
                match infix_outcome(step.result) {
                    Ok(node) => climb(step.parser, step.tokens, node, min_precedence),
                    Err(e) => done(step.parser, step.tokens, Err(e)),
                }
            },
        },
    }
}

#[via_fn]
proof fn climb_decreases<TokenType, ExprType, P: SQLParser<TokenType, ExprType>>(
    parser: P,
    tokens: P::Tokens,
    left: Box<SQLExpr<ExprType>>,
    min_precedence: usize,
) {
    if let Some(precedence) = infix_due(tokens, min_precedence) {
        if parser.infix(tokens, left, precedence).result matches Ok(Some(_)) {
            parser.lemma_infix_consumes(tokens, left, precedence);
        }
    }
}

/// The parse of one expression: a prefix construct, then every infix
/// construct that binds tighter than `min_precedence`.
pub open spec fn parsed<TokenType, ExprType, P: SQLParser<TokenType, ExprType>>(
    parser: P,
    tokens: P::Tokens,
    min_precedence: usize,
) -> Step<P, P::Tokens, Result<Box<SQLExpr<ExprType>>, ParserError<TokenType>>> {
    let step = parser.prefix(tokens);
    match step.result {
        Ok(left) => climb(step.parser, step.tokens, left, min_precedence),
        Err(e) => done(step.parser, step.tokens, Err(e)),
    }
}

/// Turns the dialect's answer to a due infix construct into the node to go
/// on with, or into the error that ends the parse.
pub fn require_infix<TokenType, ExprType>(
    answer: Result<Option<Box<SQLExpr<ExprType>>>, ParserError<TokenType>>,
) -> (r: Result<Box<SQLExpr<ExprType>>, ParserError<TokenType>>)
    ensures
        r == infix_outcome(answer),
{
    match answer {
        Ok(Some(node)) => Ok(node),
        Ok(None) => Err(ParserError::InfixContractViolation),
        Err(e) => Err(e),
    }
}

/// Parses one expression whose operators all bind tighter than
/// `min_precedence`.
///
/// The dialect parses a prefix construct. Then, for as long as the token
/// ahead binds strictly tighter than `min_precedence`, the dialect is handed
/// the tree built so far and that token's binding power, and the node it
/// returns becomes the tree. The parse ends with the tree at the end of the
/// input or before a token that does not bind tighter; it ends with an error
/// as soon as the dialect or the tokenizer fails, or the dialect declines a
/// token that the tokenizer announced.
///
/// A dialect calls this from `parse_infix` for a right operand, with the
/// operator's binding power as the threshold; operators of equal binding
/// power then group from the left.
pub fn parse_expr_above<TokenType, ExprType, P: SQLParser<TokenType, ExprType>>(
    parser: &mut P,
    tokens: &mut P::Tokens,
    min_precedence: usize,
) -> (r: Result<Box<SQLExpr<ExprType>>, ParserError<TokenType>>)
    ensures
        done(*final(parser), *final(tokens), r) == parsed(*old(parser), *old(tokens), min_precedence),
{
    let ghost goal = parsed(*parser, *tokens, min_precedence);
    let mut left = match parser.parse_prefix(tokens) {
        Ok(node) => node,
        Err(e) => { return Err(e); },
    };
    loop
        invariant
            goal == parsed(*old(parser), *old(tokens), min_precedence),
            climb(*parser, *tokens, left, min_precedence) == goal,
        decreases tokens.remaining(),
    {
        let token = match tokens.peek_token() {
            Ok(Some(token)) => token,
            Ok(None) => { return Ok(left); },
            Err(e) => { return Err(ParserError::from(e)); },
        };
        let next_precedence: usize = tokens.precedence(&token);
        if min_precedence >= next_precedence {
            return Ok(left);
        }
        proof {
            if parser.infix(*tokens, left, next_precedence).result matches Ok(Some(_)) {
                parser.lemma_infix_consumes(*tokens, left, next_precedence);
            }
        }
        match require_infix(parser.parse_infix(tokens, left, next_precedence)) {
            Ok(node) => { left = node; },
            Err(e) => { return Err(e); },
        }
    }
}

/// Parses one expression: `parse_expr_above` with the threshold 0, so that
/// every token of a positive binding power is folded in.
pub fn parse_expr<TokenType, ExprType, P: SQLParser<TokenType, ExprType>>(
    parser: &mut P,
    tokens: &mut P::Tokens,
) -> (r: Result<Box<SQLExpr<ExprType>>, ParserError<TokenType>>)
    ensures
        done(*final(parser), *final(tokens), r) == parsed(*old(parser), *old(tokens), 0),
{
    parse_expr_above(parser, tokens, 0)
}

} // verus!
