//! What the grammar builds is fresh: no name and no callee of a parsed
//! value expression has a resolved type. Resolved types come from the
//! resolver alone.

use vstd::prelude::*;
use crate::grammar::{
    Parsed, kind_at, literal_at, op_at, parse_args, parse_binary, parse_cast, parse_casts,
    parse_expr, parse_members, parse_operators, parse_path, parse_postfix, parse_primary,
    parse_type, parse_unary, parse_value, unop_at,
};
use crate::token::{TokenKind, TokenV};
use crate::yasl_expr::ValueExpr;

verus! {

/// A successful result is an expression without resolved types.
pub open spec fn is_fresh(r: Parsed<ValueExpr>) -> bool {
    r matches Ok((e, _)) ==> e.is_unresolved()
}

/// A path has no resolved type.
pub proof fn lemma_path_is_fresh(toks: Seq<TokenV>, pos: int)
    ensures
        parse_path(toks, pos) matches Ok((i, _)) ==> i.resolved_type is None,
{
    reveal(parse_path);
}

/// A literal, name or call is fresh.
pub proof fn lemma_primary_is_fresh(toks: Seq<TokenV>, pos: int)
    ensures
        is_fresh(parse_primary(toks, pos)),
    decreases toks.len() - pos, 0int,
{
    lemma_path_is_fresh(toks, pos);
    if literal_at(toks, pos) is None {
        if let Ok((_, p)) = parse_path(toks, pos) {
            if kind_at(toks, p) == Some(TokenKind::LParen) && pos < p {
                lemma_args_are_fresh(toks, p + 1);
            }
        }
    }
}

/// The arguments of a call are fresh.
pub proof fn lemma_args_are_fresh(toks: Seq<TokenV>, pos: int)
    ensures
        parse_args(toks, pos) matches Ok((args, _)) ==> forall|i: int|
            0 <= i < args.len() ==> (#[trigger] args[i]).is_unresolved(),
    decreases toks.len() - pos, 7int,
{
    if kind_at(toks, pos) != Some(TokenKind::RParen) {
        lemma_expr_is_fresh(toks, pos);
        if let Ok((_, p)) = parse_expr(toks, pos) {
            if kind_at(toks, p) == Some(TokenKind::Comma) && p > pos {
                lemma_args_are_fresh(toks, p + 1);
            }
        }
    }
}

/// Member accesses of a fresh expression are fresh.
pub proof fn lemma_members_are_fresh(toks: Seq<TokenV>, pos: int, base: ValueExpr)
    requires
        base.is_unresolved(),
    ensures
        is_fresh(parse_members(toks, pos, base)),
    decreases toks.len() - pos,
{
    if kind_at(toks, pos) == Some(TokenKind::Dot) && kind_at(toks, pos + 1) == Some(
        TokenKind::Ident,
    ) && kind_at(toks, pos + 2) != Some(TokenKind::LParen) {
        lemma_members_are_fresh(
            toks,
            pos + 2,
            ValueExpr::Field {
                base: Box::new(base),
                member: toks[pos + 1].text,
                span: toks[pos + 1].span,
            },
        );
    }
}

/// A value with its member accesses is fresh.
pub proof fn lemma_postfix_is_fresh(toks: Seq<TokenV>, pos: int)
    ensures
        is_fresh(parse_postfix(toks, pos)),
    decreases toks.len() - pos, 1int,
{
    lemma_primary_is_fresh(toks, pos);
    if let Ok((e, p)) = parse_primary(toks, pos) {
        lemma_members_are_fresh(toks, p, e);
    }
}

/// A value with its unary operators is fresh.
pub proof fn lemma_unary_is_fresh(toks: Seq<TokenV>, pos: int)
    ensures
        is_fresh(parse_unary(toks, pos)),
    decreases toks.len() - pos, 2int,
{
    if unop_at(toks, pos) is Some {
        if pos < toks.len() {
            lemma_unary_is_fresh(toks, pos + 1);
        }
    } else {
        lemma_postfix_is_fresh(toks, pos);
    }
}

/// Conversions of a fresh expression are fresh.
pub proof fn lemma_casts_are_fresh(toks: Seq<TokenV>, pos: int, expr: ValueExpr)
    requires
        expr.is_unresolved(),
    ensures
        is_fresh(parse_casts(toks, pos, expr)),
    decreases toks.len() - pos,
{
    if let Ok((ty, p)) = parse_type(toks, pos + 1) {
        if pos < p <= toks.len() {
            lemma_casts_are_fresh(toks, p, ValueExpr::Cast { expr: Box::new(expr), ty });
        }
    }
}

/// A value with its conversions is fresh.
pub proof fn lemma_cast_is_fresh(toks: Seq<TokenV>, pos: int)
    ensures
        is_fresh(parse_cast(toks, pos)),
    decreases toks.len() - pos, 3int,
{
    lemma_unary_is_fresh(toks, pos);
    if let Ok((e, p)) = parse_unary(toks, pos) {
        lemma_casts_are_fresh(toks, p, e);
    }
}

/// Operators after a fresh expression, with their right operands, make a
/// fresh expression.
pub proof fn lemma_operators_are_fresh(toks: Seq<TokenV>, pos: int, left: ValueExpr, min: nat)
    requires
        left.is_unresolved(),
    ensures
        is_fresh(parse_operators(toks, pos, left, min)),
    decreases toks.len() - pos, 4int,
{
    if let Some(op) = op_at(toks, pos) {
        if op.precedence() >= min && op.precedence() > 0 && pos < toks.len() {
            lemma_binary_is_fresh(toks, pos + 1, op.precedence() + 1);
            if let Ok((right, p)) = parse_binary(toks, pos + 1, op.precedence() + 1) {
                if pos < p <= toks.len() {
                    lemma_operators_are_fresh(
                        toks,
                        p,
                        ValueExpr::Binary { left: Box::new(left), op, right: Box::new(right) },
                        min,
                    );
                }
            }
        }
    }
}

/// A value made with binary operators is fresh.
pub proof fn lemma_binary_is_fresh(toks: Seq<TokenV>, pos: int, min: nat)
    ensures
        is_fresh(parse_binary(toks, pos, min)),
    decreases toks.len() - pos, 5int,
{
    lemma_cast_is_fresh(toks, pos);
    if let Ok((left, p)) = parse_cast(toks, pos) {
        if pos <= p <= toks.len() {
            lemma_operators_are_fresh(toks, p, left, min);
        }
    }
}

/// A parsed value expression is fresh: no name and no callee in it has a
/// resolved type.
pub proof fn lemma_expr_is_fresh(toks: Seq<TokenV>, pos: int)
    ensures
        is_fresh(parse_expr(toks, pos)),
        is_fresh(parse_value(toks, pos)),
    decreases toks.len() - pos, 6int,
{
    reveal(parse_value);
    lemma_binary_is_fresh(toks, pos, 1);
}

} // verus!
