//! Every rule of the grammar moves forward: what it reads ends after the
//! place where it started, and within the tokens.
//!
//! The rules that are applied to what another rule left ask in their
//! definition that the position has advanced. It always has, which is
//! what this module proves: those branches never fail a parse.

use vstd::prelude::*;
use crate::grammar::{
    Parsed, kind_at, op_at, parse_args, parse_assignment, parse_binary, parse_block, parse_cast,
    parse_casts, parse_expr, parse_fn, parse_if, parse_item, parse_layout, parse_local,
    parse_members, parse_name, parse_operators, parse_param, parse_params, parse_path,
    parse_postfix, parse_primary, parse_signature, parse_static, parse_stmt, parse_stmt_expr,
    parse_stmts, parse_top_item, parse_type, parse_unary, parse_value, starts_item, unop_at,
};
use crate::token::{TokenKind, TokenV};
use crate::yasl_expr::ValueExpr;

verus! {

/// A successful result ends after `pos` and within the tokens.
pub open spec fn moves_forward<T>(r: Parsed<T>, toks: Seq<TokenV>, pos: int) -> bool {
    r matches Ok((_, p)) ==> pos < p <= toks.len()
}

/// A successful result ends at or after `pos`, and within the tokens
/// where `pos` lies within them.
pub open spec fn keeps_place<T>(r: Parsed<T>, toks: Seq<TokenV>, pos: int) -> bool {
    r matches Ok((_, p)) ==> pos <= p && (pos <= toks.len() ==> p <= toks.len())
}

/// A type moves forward.
pub proof fn lemma_type_moves_forward(toks: Seq<TokenV>, pos: int)
    ensures
        moves_forward(parse_type(toks, pos), toks, pos),
{
    reveal(parse_type);
}

/// A path moves forward.
pub proof fn lemma_path_moves_forward(toks: Seq<TokenV>, pos: int)
    ensures
        moves_forward(parse_path(toks, pos), toks, pos),
{
    reveal(parse_path);
}

/// A declared name moves forward.
pub proof fn lemma_name_moves_forward(toks: Seq<TokenV>, pos: int)
    ensures
        moves_forward(parse_name(toks, pos), toks, pos),
{
    reveal(parse_name);
}

/// A literal, name or call moves forward.
pub proof fn lemma_primary_moves_forward(toks: Seq<TokenV>, pos: int)
    ensures
        moves_forward(parse_primary(toks, pos), toks, pos),
    decreases toks.len() - pos, 0int,
{
    lemma_path_moves_forward(toks, pos);
    if let Ok((_, p)) = parse_path(toks, pos) {
        if kind_at(toks, p) == Some(TokenKind::LParen) {
            lemma_args_move_forward(toks, p + 1);
        }
    }
}

/// The arguments of a call move forward.
pub proof fn lemma_args_move_forward(toks: Seq<TokenV>, pos: int)
    ensures
        moves_forward(parse_args(toks, pos), toks, pos),
    decreases toks.len() - pos, 7int,
{
    if kind_at(toks, pos) != Some(TokenKind::RParen) {
        lemma_expr_moves_forward(toks, pos);
        if let Ok((_, p)) = parse_expr(toks, pos) {
            if kind_at(toks, p) == Some(TokenKind::Comma) {
                lemma_args_move_forward(toks, p + 1);
            }
        }
    }
}

/// Member accesses keep their place or move forward.
pub proof fn lemma_members_keep_place(toks: Seq<TokenV>, pos: int, base: ValueExpr)
    ensures
        keeps_place(parse_members(toks, pos, base), toks, pos),
    decreases toks.len() - pos,
{
    if kind_at(toks, pos) == Some(TokenKind::Dot) && kind_at(toks, pos + 1) == Some(
        TokenKind::Ident,
    ) && kind_at(toks, pos + 2) != Some(TokenKind::LParen) {
        lemma_members_keep_place(
            toks,
            pos + 2,
            ValueExpr::Field {
                base: Box::new(base),
                member: toks[pos + 1].text,
                span: toks[pos + 1].span,
            },
        );
    }
}

/// A value with its member accesses moves forward.
pub proof fn lemma_postfix_moves_forward(toks: Seq<TokenV>, pos: int)
    ensures
        moves_forward(parse_postfix(toks, pos), toks, pos),
    decreases toks.len() - pos, 1int,
{
    lemma_primary_moves_forward(toks, pos);
    if let Ok((e, p)) = parse_primary(toks, pos) {
        lemma_members_keep_place(toks, p, e);
    }
}

/// A value with its unary operators moves forward.
pub proof fn lemma_unary_moves_forward(toks: Seq<TokenV>, pos: int)
    ensures
        moves_forward(parse_unary(toks, pos), toks, pos),
    decreases toks.len() - pos, 2int,
{
    if unop_at(toks, pos) is Some {
        if pos < toks.len() {
            lemma_unary_moves_forward(toks, pos + 1);
        }
    } else {
        lemma_postfix_moves_forward(toks, pos);
    }
}

/// Conversions keep their place or move forward.
pub proof fn lemma_casts_keep_place(toks: Seq<TokenV>, pos: int, expr: ValueExpr)
    ensures
        keeps_place(parse_casts(toks, pos, expr), toks, pos),
    decreases toks.len() - pos,
{
    lemma_type_moves_forward(toks, pos + 1);
    if let Ok((ty, p)) = parse_type(toks, pos + 1) {
        if pos < p <= toks.len() {
            lemma_casts_keep_place(toks, p, ValueExpr::Cast { expr: Box::new(expr), ty });
        }
    }
}

/// A value with its conversions moves forward.
pub proof fn lemma_cast_moves_forward(toks: Seq<TokenV>, pos: int)
    ensures
        moves_forward(parse_cast(toks, pos), toks, pos),
    decreases toks.len() - pos, 3int,
{
    lemma_unary_moves_forward(toks, pos);
    if let Ok((e, p)) = parse_unary(toks, pos) {
        lemma_casts_keep_place(toks, p, e);
    }
}

/// Operators with their right operands keep their place or move forward.
pub proof fn lemma_operators_keep_place(toks: Seq<TokenV>, pos: int, left: ValueExpr, min: nat)
    ensures
        keeps_place(parse_operators(toks, pos, left, min), toks, pos),
    decreases toks.len() - pos, 4int,
{
    if let Some(op) = op_at(toks, pos) {
        if op.precedence() >= min && op.precedence() > 0 && pos < toks.len() {
            lemma_binary_moves_forward(toks, pos + 1, op.precedence() + 1);
            if let Ok((right, p)) = parse_binary(toks, pos + 1, op.precedence() + 1) {
                lemma_operators_keep_place(
                    toks,
                    p,
                    ValueExpr::Binary { left: Box::new(left), op, right: Box::new(right) },
                    min,
                );
            }
        }
    }
}

/// A value made with binary operators moves forward.
pub proof fn lemma_binary_moves_forward(toks: Seq<TokenV>, pos: int, min: nat)
    ensures
        moves_forward(parse_binary(toks, pos, min), toks, pos),
    decreases toks.len() - pos, 5int,
{
    lemma_cast_moves_forward(toks, pos);
    if let Ok((left, p)) = parse_cast(toks, pos) {
        lemma_operators_keep_place(toks, p, left, min);
    }
}

/// A value expression moves forward.
pub proof fn lemma_expr_moves_forward(toks: Seq<TokenV>, pos: int)
    ensures
        moves_forward(parse_expr(toks, pos), toks, pos),
        moves_forward(parse_value(toks, pos), toks, pos),
    decreases toks.len() - pos, 6int,
{
    reveal(parse_value);
    lemma_binary_moves_forward(toks, pos, 1);
}

/// A `let` moves forward.
pub proof fn lemma_local_moves_forward(toks: Seq<TokenV>, pos: int)
    ensures
        moves_forward(parse_local(toks, pos), toks, pos),
{
    reveal(parse_local);
    lemma_name_moves_forward(toks, pos + 1);
    if let Ok((_, p)) = parse_name(toks, pos + 1) {
        lemma_type_moves_forward(toks, p + 1);
        lemma_expr_moves_forward(toks, p + 1);
        if let Ok((_, q)) = parse_type(toks, p + 1) {
            lemma_expr_moves_forward(toks, q + 1);
        }
    }
}

/// A constant moves forward.
pub proof fn lemma_static_moves_forward(toks: Seq<TokenV>, pos: int)
    ensures
        moves_forward(parse_static(toks, pos), toks, pos),
{
    reveal(parse_static);
    lemma_name_moves_forward(toks, pos + 1);
    if let Ok((_, p)) = parse_name(toks, pos + 1) {
        lemma_type_moves_forward(toks, p + 1);
        if let Ok((_, q)) = parse_type(toks, p + 1) {
            lemma_expr_moves_forward(toks, q + 1);
        }
    }
}

/// An interface slot moves forward.
pub proof fn lemma_layout_moves_forward(toks: Seq<TokenV>, pos: int)
    ensures
        moves_forward(parse_layout(toks, pos), toks, pos),
{
    reveal(parse_layout);
    lemma_name_moves_forward(toks, pos + 6);
    if let Ok((_, p)) = parse_name(toks, pos + 6) {
        lemma_type_moves_forward(toks, p + 1);
    }
}

/// A parameter moves forward.
pub proof fn lemma_param_moves_forward(toks: Seq<TokenV>, pos: int)
    ensures
        moves_forward(parse_param(toks, pos), toks, pos),
{
    reveal(parse_param);
    lemma_name_moves_forward(toks, pos);
    if let Ok((_, p)) = parse_name(toks, pos) {
        lemma_type_moves_forward(toks, p + 1);
    }
}

/// The parameters of a function move forward.
pub proof fn lemma_params_move_forward(toks: Seq<TokenV>, pos: int)
    ensures
        moves_forward(parse_params(toks, pos), toks, pos),
    decreases toks.len() - pos,
{
    if kind_at(toks, pos) != Some(TokenKind::RParen) {
        lemma_param_moves_forward(toks, pos);
        if let Ok((_, p)) = parse_param(toks, pos) {
            if kind_at(toks, p) == Some(TokenKind::Comma) {
                lemma_params_move_forward(toks, p + 1);
            }
        }
    }
}

/// The head of a function moves forward.
pub proof fn lemma_signature_moves_forward(toks: Seq<TokenV>, pos: int)
    ensures
        moves_forward(parse_signature(toks, pos), toks, pos),
{
    reveal(parse_signature);
    lemma_name_moves_forward(toks, pos + 1);
    if let Ok((_, p)) = parse_name(toks, pos + 1) {
        lemma_params_move_forward(toks, p + 1);
        if let Ok((_, q)) = parse_params(toks, p + 1) {
            lemma_type_moves_forward(toks, q + 1);
        }
    }
}

/// A function moves forward.
pub proof fn lemma_fn_moves_forward(toks: Seq<TokenV>, pos: int)
    ensures
        moves_forward(parse_fn(toks, pos), toks, pos),
    decreases toks.len() - pos, 2int,
{
    lemma_signature_moves_forward(toks, pos);
    if let Ok((_, p)) = parse_signature(toks, pos) {
        lemma_block_moves_forward(toks, p);
    }
}

/// An item moves forward.
pub proof fn lemma_item_moves_forward(toks: Seq<TokenV>, pos: int)
    ensures
        moves_forward(parse_item(toks, pos), toks, pos),
        moves_forward(parse_top_item(toks, pos), toks, pos),
    decreases toks.len() - pos, 3int,
{
    lemma_static_moves_forward(toks, pos);
    lemma_layout_moves_forward(toks, pos);
    lemma_fn_moves_forward(toks, pos);
}

/// A block moves forward.
pub proof fn lemma_block_moves_forward(toks: Seq<TokenV>, pos: int)
    ensures
        moves_forward(parse_block(toks, pos), toks, pos),
    decreases toks.len() - pos, 1int,
{
    if kind_at(toks, pos) == Some(TokenKind::LBrace) {
        lemma_stmts_move_forward(toks, pos + 1);
    }
}

/// The statements of a block, with its closing brace, move forward.
pub proof fn lemma_stmts_move_forward(toks: Seq<TokenV>, pos: int)
    ensures
        moves_forward(parse_stmts(toks, pos), toks, pos),
    decreases toks.len() - pos, 5int,
{
    if kind_at(toks, pos) != Some(TokenKind::RBrace) {
        lemma_stmt_moves_forward(toks, pos);
        if let Ok((_, p)) = parse_stmt(toks, pos) {
            lemma_stmts_move_forward(toks, p);
        }
    }
}

/// A statement moves forward.
pub proof fn lemma_stmt_moves_forward(toks: Seq<TokenV>, pos: int)
    ensures
        moves_forward(parse_stmt(toks, pos), toks, pos),
    decreases toks.len() - pos, 4int,
{
    lemma_local_moves_forward(toks, pos);
    if starts_item(toks, pos) {
        lemma_item_moves_forward(toks, pos);
    } else {
        lemma_stmt_expr_moves_forward(toks, pos);
    }
}

/// What a value makes as a statement keeps its place or moves forward.
pub proof fn lemma_assignment_keeps_place(toks: Seq<TokenV>, start: int, pos: int, left: ValueExpr)
    ensures
        keeps_place(parse_assignment(toks, start, pos, left), toks, pos),
{
    reveal(parse_assignment);
    lemma_expr_moves_forward(toks, pos + 1);
}

/// A statement expression moves forward.
pub proof fn lemma_stmt_expr_moves_forward(toks: Seq<TokenV>, pos: int)
    ensures
        moves_forward(parse_stmt_expr(toks, pos), toks, pos),
    decreases toks.len() - pos, 3int,
{
    lemma_expr_moves_forward(toks, pos + 1);
    lemma_expr_moves_forward(toks, pos);
    if let Ok((e, p)) = parse_value(toks, pos) {
        lemma_assignment_keeps_place(toks, pos, p, e);
    }
    match kind_at(toks, pos) {
        Some(TokenKind::Keyword(crate::token::Keyword::If)) => {
            lemma_if_moves_forward(toks, pos);
        },
        Some(TokenKind::LBrace) => {
            lemma_block_moves_forward(toks, pos);
        },
        _ => {},
    }
}

/// A conditional moves forward.
pub proof fn lemma_if_moves_forward(toks: Seq<TokenV>, pos: int)
    ensures
        moves_forward(parse_if(toks, pos), toks, pos),
    decreases toks.len() - pos, 2int,
{
    lemma_expr_moves_forward(toks, pos + 1);
    if let Ok((_, p)) = parse_value(toks, pos + 1) {
        if pos < p <= toks.len() {
            lemma_block_moves_forward(toks, p);
            if let Ok((_, q)) = parse_block(toks, p) {
                if kind_at(toks, q) == Some(TokenKind::Keyword(crate::token::Keyword::Else)) {
                    lemma_stmt_expr_moves_forward(toks, q + 1);
                }
            }
        }
    }
}

} // verus!
