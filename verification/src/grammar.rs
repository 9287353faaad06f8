//! The grammar of the shader language, as functions from a token sequence
//! and a position to what stands there and the position after it.
//!
//! ```text
//! Module        := Item*
//! Item          := StaticConst | InterfaceSlot | Function
//! StaticConst   := "static" Ident ":" Type "=" ValueExpr ";"
//! InterfaceSlot := "layout" "<" ("input"|"output") "," Int ">" Ident ":" Type ";"
//! Function      := "fn" Ident "(" (Ident ":" Type),* ")" ("->" Type)? Block
//! Block         := "{" Statement* "}"
//! Statement     := LocalBinding ";" | StmtExpr ";" | Item
//! LocalBinding  := "let" Ident (":" Type)? ("=" ValueExpr)?
//! StmtExpr      := ValueExpr | Path "=" ValueExpr | Path CompoundOp ValueExpr
//!                | "return" ValueExpr? | "if" ValueExpr Block ("else" StmtExpr)?
//!                | Block
//! ValueExpr     := Literal | Path | Path "(" ValueExpr,* ")" | UnOp ValueExpr
//!                | ValueExpr "." Ident | ValueExpr "as" Type
//!                | ValueExpr BinOp ValueExpr
//! Path          := Ident | Ident "::" Ident
//! Type          := scalar name | ("vec2"|"vec3"|"vec4") "<" scalar name ">"
//! ```
//!
//! Member access binds tightest, then the unary operators, then `as`,
//! then the binary operators by their precedence, each to the left. The
//! semicolon after a conditional or a block may be left out. Only the
//! module itself holds interface slots.
//!
//! The first token that fits no rule fails the parse, at that token. What
//! shows a construct that the host language has and the shader language
//! leaves out is an unsupported construct: a word that the host language
//! reserves, a visibility or qualifier, a pattern in the place of a name,
//! generics, a compound type, a parenthesized, tuple, array, block or
//! range value, a reference, a closure, indexing, a method or macro call,
//! an assignment used as a value, the value of a block. Anything else is
//! a syntax error.

use vstd::prelude::*;
use crate::error::{ErrorKind, ParseError};
use crate::number::parse_number;
use crate::span::Span;
use crate::token::{BinOp, Keyword, TokenKind, TokenV};
use crate::yasl_block::Block;
use crate::yasl_expr::{LitKind, StmtExpr, ValueExpr};
use crate::yasl_file::Module;
use crate::yasl_ident::{Identifier, path_identifier, plain_identifier};
use crate::yasl_item::{Item, LayoutKind};
use crate::yasl_stmt::{LocalBinding, Statement};
use crate::token::UnOp;
use crate::yasl_type::{YaslScalarType, YaslType, YaslVecType};

verus! {

/// What stands at a position, with the position after it; or the error.
pub type Parsed<T> = Result<(T, int), ParseError>;

/// The kind of the token at `pos`; `None` past the end.
pub open spec fn kind_at(toks: Seq<TokenV>, pos: int) -> Option<TokenKind> {
    if 0 <= pos < toks.len() {
        Some(toks[pos].kind)
    } else {
        None
    }
}

/// The binary operator at `pos`, if one stands there.
pub open spec fn op_at(toks: Seq<TokenV>, pos: int) -> Option<BinOp> {
    match kind_at(toks, pos) {
        Some(TokenKind::Op(op)) => Some(op),
        _ => None,
    }
}

/// The place of the token at `pos`; past the end, the empty region where
/// the last token ends.
pub open spec fn span_at(toks: Seq<TokenV>, pos: int) -> Span {
    if 0 <= pos < toks.len() {
        toks[pos].span
    } else if toks.len() > 0 {
        Span { start: toks[toks.len() - 1].span.end, end: toks[toks.len() - 1].span.end }
    } else {
        Span { start: 0, end: 0 }
    }
}

/// The error of kind `kind` at the token at `pos`.
pub open spec fn error_at(toks: Seq<TokenV>, pos: int, kind: ErrorKind) -> ParseError {
    ParseError { kind, span: span_at(toks, pos) }
}

/// The error for a token that fits no rule: a keyword there is a construct
/// that the shader language leaves out, anything else a syntax error.
pub open spec fn unexpected(toks: Seq<TokenV>, pos: int) -> ParseError {
    match kind_at(toks, pos) {
        Some(TokenKind::Keyword(_)) => error_at(toks, pos, ErrorKind::UnsupportedConstructError),
        _ => error_at(toks, pos, ErrorKind::SyntaxError),
    }
}

/// The token at `pos` shows that the value before it stands in a construct
/// that the host language has and the shader language leaves out: an
/// assignment used as a value, a value with braces after it, or the value
/// of a block, which ends without a semicolon.
pub open spec fn follows_host_value(toks: Seq<TokenV>, pos: int) -> bool {
    match kind_at(toks, pos) {
        Some(TokenKind::Assign) | Some(TokenKind::LBrace) | Some(TokenKind::RBrace) => true,
        Some(TokenKind::Op(op)) => op.is_compound(),
        _ => false,
    }
}

/// The error for a token that may not follow a value.
pub open spec fn unexpected_after_value(toks: Seq<TokenV>, pos: int) -> ParseError {
    if follows_host_value(toks, pos) {
        unsupported(toks, pos)
    } else {
        unexpected(toks, pos)
    }
}

/// The error for a construct that the shader language leaves out.
pub open spec fn unsupported(toks: Seq<TokenV>, pos: int) -> ParseError {
    error_at(toks, pos, ErrorKind::UnsupportedConstructError)
}

/// `name` is the name of a vector type.
pub open spec fn is_vec_name(name: Seq<char>) -> bool {
    name == "vec2"@ || name == "vec3"@ || name == "vec4"@
}

/// A type.
#[verifier::opaque]
pub open spec fn parse_type(toks: Seq<TokenV>, pos: int) -> Parsed<YaslType> {
    match kind_at(toks, pos) {
        Some(TokenKind::Ident) => if kind_at(toks, pos + 1) == Some(TokenKind::Op(BinOp::Lt)) {
            if !is_vec_name(toks[pos].text) {
                Err(error_at(toks, pos, ErrorKind::UnknownTypeError))
            } else if kind_at(toks, pos + 2) != Some(TokenKind::Ident) {
                Err(unexpected(toks, pos + 2))
            } else {
                match YaslScalarType::of_name(toks[pos + 2].text) {
                    None => Err(error_at(toks, pos + 2, ErrorKind::UnknownTypeError)),
                    Some(c) => if kind_at(toks, pos + 3) == Some(TokenKind::Op(BinOp::Gt)) {
                        Ok((YaslType::Vec(YaslVecType::of_name(toks[pos].text, c)->0), pos + 4))
                    } else if kind_at(toks, pos + 3) == Some(TokenKind::Comma) {
                        Err(error_at(toks, pos, ErrorKind::UnknownTypeError))
                    } else {
                        Err(unexpected(toks, pos + 3))
                    },
                }
            }
        } else {
            match YaslScalarType::of_name(toks[pos].text) {
                Some(s) => Ok((YaslType::ScalarType(s), pos + 1)),
                None => Err(error_at(toks, pos, ErrorKind::UnknownTypeError)),
            }
        },
        Some(TokenKind::LParen) | Some(TokenKind::LBracket) | Some(TokenKind::Op(BinOp::BitAnd))
        | Some(TokenKind::Op(BinOp::Mul)) | Some(TokenKind::Not) => Err(unsupported(toks, pos)),
        _ => Err(unexpected(toks, pos)),
    }
}

/// A name in value position: an identifier, or a namespace, `::` and an
/// identifier.
#[verifier::opaque]
pub open spec fn parse_path(toks: Seq<TokenV>, pos: int) -> Parsed<Identifier> {
    if kind_at(toks, pos) != Some(TokenKind::Ident) {
        Err(unexpected(toks, pos))
    } else if kind_at(toks, pos + 1) == Some(TokenKind::PathSep) {
        if kind_at(toks, pos + 2) == Some(TokenKind::Op(BinOp::Lt)) {
            Err(unsupported(toks, pos + 2))
        } else if kind_at(toks, pos + 2) != Some(TokenKind::Ident) {
            Err(unexpected(toks, pos + 2))
        } else if kind_at(toks, pos + 3) == Some(TokenKind::PathSep) {
            Err(unsupported(toks, pos + 3))
        } else {
            match path_identifier(
                toks[pos].text,
                toks[pos].span,
                toks[pos + 2].text,
                toks[pos + 2].span,
            ) {
                Ok(id) => Ok((id, pos + 3)),
                Err(e) => Err(e),
            }
        }
    } else {
        Ok((plain_identifier(toks[pos].text, toks[pos].span), pos + 1))
    }
}

/// The literal that the token at `pos` is, if it is one.
pub open spec fn literal_at(toks: Seq<TokenV>, pos: int) -> Option<ValueExpr> {
    match kind_at(toks, pos) {
        Some(TokenKind::Int) => Some(
            ValueExpr::Lit { kind: LitKind::Int, text: toks[pos].text, span: toks[pos].span },
        ),
        Some(TokenKind::Float) => Some(
            ValueExpr::Lit { kind: LitKind::Float, text: toks[pos].text, span: toks[pos].span },
        ),
        Some(TokenKind::Keyword(Keyword::True)) | Some(TokenKind::Keyword(Keyword::False)) => Some(
            ValueExpr::Lit { kind: LitKind::Bool, text: toks[pos].text, span: toks[pos].span },
        ),
        _ => None,
    }
}

/// The token at `pos` starts a value of the host language that the shader
/// language leaves out: a parenthesized or tuple value, an array, a block,
/// a range, a reference, a dereference, a closure.
pub open spec fn starts_unsupported_value(toks: Seq<TokenV>, pos: int) -> bool {
    match kind_at(toks, pos) {
        Some(TokenKind::LParen) | Some(TokenKind::LBracket) | Some(TokenKind::LBrace) | Some(
            TokenKind::Dot,
        ) | Some(TokenKind::Op(BinOp::BitAnd)) | Some(TokenKind::Op(BinOp::Mul)) | Some(
            TokenKind::Op(BinOp::Or),
        ) | Some(TokenKind::Op(BinOp::BitOr)) | Some(TokenKind::Op(BinOp::And)) => true,
        _ => false,
    }
}

/// A literal, a name, or a call. A `!` after the name is the call of a
/// macro, which the shader language leaves out.
pub open spec fn parse_primary(toks: Seq<TokenV>, pos: int) -> Parsed<ValueExpr>
    decreases toks.len() - pos, 0int,
{
    if literal_at(toks, pos) is Some {
        Ok((literal_at(toks, pos)->0, pos + 1))
    } else if kind_at(toks, pos) == Some(TokenKind::Ident) {
        match parse_path(toks, pos) {
            Err(e) => Err(e),
            Ok((ident, p)) => if kind_at(toks, p) == Some(TokenKind::Not) {
                Err(unsupported(toks, p))
            } else if kind_at(toks, p) == Some(TokenKind::LParen) && pos < p {
                match parse_args(toks, p + 1) {
                    Err(e) => Err(e),
                    Ok((args, q)) => Ok((ValueExpr::Call { ident, args }, q)),
                }
            } else {
                Ok((ValueExpr::Ident(ident), p))
            },
        }
    } else if starts_unsupported_value(toks, pos) {
        Err(unsupported(toks, pos))
    } else {
        Err(unexpected(toks, pos))
    }
}

/// The arguments of a call, after its opening parenthesis and up to the
/// closing one.
pub open spec fn parse_args(toks: Seq<TokenV>, pos: int) -> Parsed<Seq<ValueExpr>>
    decreases toks.len() - pos, 7int,
{
    if kind_at(toks, pos) == Some(TokenKind::RParen) {
        Ok((Seq::empty(), pos + 1))
    } else {
        match parse_expr(toks, pos) {
            Err(e) => Err(e),
            Ok((e, p)) => if kind_at(toks, p) == Some(TokenKind::Comma) && p > pos {
                match parse_args(toks, p + 1) {
                    Err(err) => Err(err),
                    Ok((rest, q)) => Ok((seq![e] + rest, q)),
                }
            } else if kind_at(toks, p) == Some(TokenKind::RParen) {
                Ok((seq![e], p + 1))
            } else {
                Err(unexpected_after_value(toks, p))
            },
        }
    }
}

/// The member accesses that follow `base`. A call, a number or a dot
/// after the dot is a method call, a tuple member or a range of the host
/// language.
pub open spec fn parse_members(toks: Seq<TokenV>, pos: int, base: ValueExpr) -> Parsed<ValueExpr>
    decreases toks.len() - pos,
{
    if kind_at(toks, pos) == Some(TokenKind::Dot) {
        match kind_at(toks, pos + 1) {
            Some(TokenKind::Ident) => if kind_at(toks, pos + 2) == Some(TokenKind::LParen) {
                Err(unsupported(toks, pos + 1))
            } else {
                parse_members(
                    toks,
                    pos + 2,
                    ValueExpr::Field {
                        base: Box::new(base),
                        member: toks[pos + 1].text,
                        span: toks[pos + 1].span,
                    },
                )
            },
            Some(TokenKind::Int) | Some(TokenKind::Float) | Some(TokenKind::Dot) => Err(
                unsupported(toks, pos + 1),
            ),
            _ => Err(unexpected(toks, pos + 1)),
        }
    } else if kind_at(toks, pos) == Some(TokenKind::LBracket) {
        Err(unsupported(toks, pos))
    } else {
        Ok((base, pos))
    }
}

/// A literal, name or call with the member accesses that follow it.
pub open spec fn parse_postfix(toks: Seq<TokenV>, pos: int) -> Parsed<ValueExpr>
    decreases toks.len() - pos, 1int,
{
    match parse_primary(toks, pos) {
        Err(e) => Err(e),
        Ok((e, p)) => parse_members(toks, p, e),
    }
}

/// The unary operator at `pos`, if one stands there.
pub open spec fn unop_at(toks: Seq<TokenV>, pos: int) -> Option<UnOp> {
    match kind_at(toks, pos) {
        Some(TokenKind::Not) => Some(UnOp::Not),
        Some(TokenKind::Op(BinOp::Sub)) => Some(UnOp::Neg),
        _ => None,
    }
}

/// A value with the unary operators before it.
pub open spec fn parse_unary(toks: Seq<TokenV>, pos: int) -> Parsed<ValueExpr>
    decreases toks.len() - pos, 2int,
{
    match unop_at(toks, pos) {
        Some(op) => if pos < toks.len() {
            match parse_unary(toks, pos + 1) {
                Err(e) => Err(e),
                Ok((e, p)) => Ok(
                    (ValueExpr::Unary { op, expr: Box::new(e), span: toks[pos].span }, p),
                ),
            }
        } else {
            Err(unexpected(toks, pos))
        },
        None => parse_postfix(toks, pos),
    }
}

/// The conversions that follow `expr`.
pub open spec fn parse_casts(toks: Seq<TokenV>, pos: int, expr: ValueExpr) -> Parsed<ValueExpr>
    decreases toks.len() - pos,
{
    if kind_at(toks, pos) == Some(TokenKind::Keyword(Keyword::As)) {
        match parse_type(toks, pos + 1) {
            Err(e) => Err(e),
            Ok((ty, p)) => if pos < p <= toks.len() {
                parse_casts(toks, p, ValueExpr::Cast { expr: Box::new(expr), ty })
            } else {
                Err(unexpected(toks, p))
            },
        }
    } else {
        Ok((expr, pos))
    }
}

/// A value with the conversions that follow it.
pub open spec fn parse_cast(toks: Seq<TokenV>, pos: int) -> Parsed<ValueExpr>
    decreases toks.len() - pos, 3int,
{
    match parse_unary(toks, pos) {
        Err(e) => Err(e),
        Ok((e, p)) => parse_casts(toks, p, e),
    }
}

/// The operators of precedence `min` or more that follow `left`, with
/// their right operands.
pub open spec fn parse_operators(toks: Seq<TokenV>, pos: int, left: ValueExpr, min: nat) -> Parsed<
    ValueExpr,
>
    decreases toks.len() - pos, 4int,
{
    match op_at(toks, pos) {
        Some(op) => if op.precedence() >= min && op.precedence() > 0 && pos < toks.len() {
            match parse_binary(toks, pos + 1, op.precedence() + 1) {
                Err(e) => Err(e),
                Ok((right, p)) => if pos < p <= toks.len() {
                    parse_operators(
                        toks,
                        p,
                        ValueExpr::Binary { left: Box::new(left), op, right: Box::new(right) },
                        min,
                    )
                } else {
                    Err(unexpected(toks, p))
                },
            }
        } else {
            Ok((left, pos))
        },
        None => Ok((left, pos)),
    }
}

/// A value made with binary operators of precedence `min` or more.
pub open spec fn parse_binary(toks: Seq<TokenV>, pos: int, min: nat) -> Parsed<ValueExpr>
    decreases toks.len() - pos, 5int,
{
    match parse_cast(toks, pos) {
        Err(e) => Err(e),
        Ok((left, p)) => if pos <= p <= toks.len() {
            parse_operators(toks, p, left, min)
        } else {
            Err(unexpected(toks, p))
        },
    }
}

/// A value expression.
pub open spec fn parse_expr(toks: Seq<TokenV>, pos: int) -> Parsed<ValueExpr>
    decreases toks.len() - pos, 6int,
{
    parse_binary(toks, pos, 1)
}

/// A value expression, as the rules for statements and items see it: they
/// take it whole.
#[verifier::opaque]
pub open spec fn parse_value(toks: Seq<TokenV>, pos: int) -> Parsed<ValueExpr> {
    parse_expr(toks, pos)
}

/// The token at `pos` is the identifier `word`.
pub open spec fn word_at(toks: Seq<TokenV>, pos: int, word: Seq<char>) -> bool {
    kind_at(toks, pos) == Some(TokenKind::Ident) && toks[pos].text == word
}

/// The name that a binding, a parameter or an item declares: an
/// identifier other than `_`, which is a pattern of the host language.
#[verifier::opaque]
pub open spec fn parse_name(toks: Seq<TokenV>, pos: int) -> Parsed<Identifier> {
    match kind_at(toks, pos) {
        Some(TokenKind::Ident) => if toks[pos].text == "_"@ {
            Err(unsupported(toks, pos))
        } else {
            Ok((plain_identifier(toks[pos].text, toks[pos].span), pos + 1))
        },
        Some(TokenKind::LParen) | Some(TokenKind::LBracket) | Some(TokenKind::Op(BinOp::BitAnd)) =>
            Err(unsupported(toks, pos)),
        _ => Err(unexpected(toks, pos)),
    }
}

/// A `let`, from the keyword up to the semicolon, which it leaves.
#[verifier::opaque]
pub open spec fn parse_local(toks: Seq<TokenV>, pos: int) -> Parsed<LocalBinding> {
    if kind_at(toks, pos) != Some(TokenKind::Keyword(Keyword::Let)) {
        Err(unexpected(toks, pos))
    } else {
        match parse_name(toks, pos + 1) {
            Err(e) => Err(e),
            Ok((ident, p)) => {
                let declared: Parsed<Option<YaslType>> = if kind_at(toks, p) == Some(
                    TokenKind::Colon,
                ) {
                    match parse_type(toks, p + 1) {
                        Err(e) => Err(e),
                        Ok((ty, q)) => Ok((Some(ty), q)),
                    }
                } else {
                    Ok((None, p))
                };
                match declared {
                    Err(e) => Err(e),
                    Ok((ty, q)) => if kind_at(toks, q) == Some(TokenKind::Assign) {
                        match parse_value(toks, q + 1) {
                            Err(e) => Err(e),
                            Ok((init, r)) => Ok((LocalBinding { ident, ty, init: Some(init) }, r)),
                        }
                    } else {
                        Ok((LocalBinding { ident, ty, init: None }, q))
                    },
                }
            },
        }
    }
}

/// A constant, from `static` to its semicolon.
#[verifier::opaque]
pub open spec fn parse_static(toks: Seq<TokenV>, pos: int) -> Parsed<Item> {
    if kind_at(toks, pos) != Some(TokenKind::Keyword(Keyword::Static)) {
        Err(unexpected(toks, pos))
    } else {
        match parse_name(toks, pos + 1) {
            Err(e) => Err(e),
            Ok((ident, p)) => if kind_at(toks, p) != Some(TokenKind::Colon) {
                Err(unexpected(toks, p))
            } else {
                match parse_type(toks, p + 1) {
                    Err(e) => Err(e),
                    Ok((ty, q)) => if kind_at(toks, q) != Some(TokenKind::Assign) {
                        Err(unexpected(toks, q))
                    } else {
                        match parse_value(toks, q + 1) {
                            Err(e) => Err(e),
                            Ok((init, r)) => if kind_at(toks, r) != Some(TokenKind::Semi) {
                                Err(unexpected_after_value(toks, r))
                            } else {
                                Ok((Item::StaticConst { ident, ty, init }, r + 1))
                            },
                        }
                    },
                }
            },
        }
    }
}

/// The direction that the token at `pos` names.
pub open spec fn direction_at(toks: Seq<TokenV>, pos: int) -> Option<LayoutKind> {
    if word_at(toks, pos, "input"@) {
        Some(LayoutKind::Input)
    } else if word_at(toks, pos, "output"@) {
        Some(LayoutKind::Output)
    } else {
        None
    }
}

/// An interface slot, from `layout` to its semicolon. A direction other
/// than `input` and `output` is a syntax error at `layout`.
#[verifier::opaque]
pub open spec fn parse_layout(toks: Seq<TokenV>, pos: int) -> Parsed<Item> {
    if !word_at(toks, pos, "layout"@) {
        Err(unexpected(toks, pos))
    } else if kind_at(toks, pos + 1) != Some(TokenKind::Op(BinOp::Lt)) {
        Err(unexpected(toks, pos + 1))
    } else if direction_at(toks, pos + 2) is None {
        Err(error_at(toks, pos, ErrorKind::SyntaxError))
    } else if kind_at(toks, pos + 3) != Some(TokenKind::Comma) {
        Err(unexpected(toks, pos + 3))
    } else if kind_at(toks, pos + 4) != Some(TokenKind::Int) {
        Err(unexpected(toks, pos + 4))
    } else if parse_number(toks[pos + 4].text) is None {
        Err(error_at(toks, pos + 4, ErrorKind::SyntaxError))
    } else if kind_at(toks, pos + 5) != Some(TokenKind::Op(BinOp::Gt)) {
        Err(unexpected(toks, pos + 5))
    } else {
        match parse_name(toks, pos + 6) {
            Err(e) => Err(e),
            Ok((ident, p)) => if kind_at(toks, p) != Some(TokenKind::Colon) {
                Err(unexpected(toks, p))
            } else {
                match parse_type(toks, p + 1) {
                    Err(e) => Err(e),
                    Ok((ty, q)) => if kind_at(toks, q) != Some(TokenKind::Semi) {
                        Err(unexpected(toks, q))
                    } else {
                        Ok(
                            (
                                Item::InterfaceSlot {
                                    direction: direction_at(toks, pos + 2)->0,
                                    slot_index: parse_number(toks[pos + 4].text)->0,
                                    ident,
                                    ty,
                                },
                                q + 1,
                            ),
                        )
                    },
                }
            },
        }
    }
}

/// A parameter: a name, a colon and a type.
#[verifier::opaque]
pub open spec fn parse_param(toks: Seq<TokenV>, pos: int) -> Parsed<(Identifier, YaslType)> {
    match parse_name(toks, pos) {
        Err(e) => Err(e),
        Ok((ident, p)) => if kind_at(toks, p) != Some(TokenKind::Colon) {
            Err(unexpected(toks, p))
        } else {
            match parse_type(toks, p + 1) {
                Err(e) => Err(e),
                Ok((ty, q)) => Ok(((ident, ty), q)),
            }
        },
    }
}

/// The parameters of a function, after its opening parenthesis and up to
/// the closing one.
pub open spec fn parse_params(toks: Seq<TokenV>, pos: int) -> Parsed<Seq<(Identifier, YaslType)>>
    decreases toks.len() - pos,
{
    if kind_at(toks, pos) == Some(TokenKind::RParen) {
        Ok((Seq::empty(), pos + 1))
    } else {
        match parse_param(toks, pos) {
            Err(e) => Err(e),
            Ok((param, p)) => if kind_at(toks, p) == Some(TokenKind::Comma) && pos < p {
                match parse_params(toks, p + 1) {
                    Err(e) => Err(e),
                    Ok((rest, q)) => Ok((seq![param] + rest, q)),
                }
            } else if kind_at(toks, p) == Some(TokenKind::RParen) {
                Ok((seq![param], p + 1))
            } else {
                Err(unexpected(toks, p))
            },
        }
    }
}

/// The head of a function, from `fn` up to its body: name, parameters and
/// return type, which is `Void` where none is written. Generics are
/// refused.
#[verifier::opaque]
pub open spec fn parse_signature(toks: Seq<TokenV>, pos: int) -> Parsed<
    (Identifier, Seq<(Identifier, YaslType)>, YaslType),
> {
    if kind_at(toks, pos) != Some(TokenKind::Keyword(Keyword::Fn)) {
        Err(unexpected(toks, pos))
    } else {
        match parse_name(toks, pos + 1) {
            Err(e) => Err(e),
            Ok((ident, p)) => if kind_at(toks, p) == Some(TokenKind::Op(BinOp::Lt)) {
                Err(unsupported(toks, p))
            } else if kind_at(toks, p) != Some(TokenKind::LParen) {
                Err(unexpected(toks, p))
            } else {
                match parse_params(toks, p + 1) {
                    Err(e) => Err(e),
                    Ok((params, q)) => if kind_at(toks, q) == Some(TokenKind::Arrow) {
                        match parse_type(toks, q + 1) {
                            Err(e) => Err(e),
                            Ok((output, r)) => Ok(((ident, params, output), r)),
                        }
                    } else {
                        Ok(((ident, params, YaslType::Void), q))
                    },
                }
            },
        }
    }
}

/// The token at `pos` starts an item that may stand among statements.
pub open spec fn starts_item(toks: Seq<TokenV>, pos: int) -> bool {
    match kind_at(toks, pos) {
        Some(TokenKind::Keyword(k)) => k == Keyword::Static || k == Keyword::Fn || k
            == Keyword::Pub || k == Keyword::Const || k == Keyword::Async || k == Keyword::Unsafe
            || k == Keyword::Extern,
        _ => false,
    }
}

/// The statement expression is a conditional or a block, after which the
/// semicolon may be left out.
pub open spec fn is_block_like(e: StmtExpr) -> bool {
    e is If || e is Block
}

/// A function, from `fn` to the end of its body.
pub open spec fn parse_fn(toks: Seq<TokenV>, pos: int) -> Parsed<Item>
    decreases toks.len() - pos, 2int,
{
    match parse_signature(toks, pos) {
        Err(e) => Err(e),
        Ok(((ident, params, output), p)) => if pos < p <= toks.len() {
            match parse_block(toks, p) {
                Err(e) => Err(e),
                Ok((body, q)) => Ok((Item::Function { ident, params, output, body }, q)),
            }
        } else {
            Err(unexpected(toks, p))
        },
    }
}

/// An item that may stand among statements: a constant or a function. A
/// visibility or a qualifier before it, and any other item of the host
/// language, is an unsupported construct.
pub open spec fn parse_item(toks: Seq<TokenV>, pos: int) -> Parsed<Item>
    decreases toks.len() - pos, 3int,
{
    match kind_at(toks, pos) {
        Some(TokenKind::Keyword(Keyword::Static)) => parse_static(toks, pos),
        Some(TokenKind::Keyword(Keyword::Fn)) => parse_fn(toks, pos),
        _ => Err(unexpected(toks, pos)),
    }
}

/// A block, from its opening brace to the closing one.
pub open spec fn parse_block(toks: Seq<TokenV>, pos: int) -> Parsed<Block>
    decreases toks.len() - pos, 1int,
{
    if kind_at(toks, pos) != Some(TokenKind::LBrace) {
        Err(unexpected(toks, pos))
    } else {
        match parse_stmts(toks, pos + 1) {
            Err(e) => Err(e),
            Ok((stmts, p)) => Ok((Block { span: toks[pos].span, stmts }, p)),
        }
    }
}

/// The statements of a block, after its opening brace and up to the
/// closing one.
pub open spec fn parse_stmts(toks: Seq<TokenV>, pos: int) -> Parsed<Seq<Statement>>
    decreases toks.len() - pos, 5int,
{
    if kind_at(toks, pos) == Some(TokenKind::RBrace) {
        Ok((Seq::empty(), pos + 1))
    } else {
        match parse_stmt(toks, pos) {
            Err(e) => Err(e),
            Ok((stmt, p)) => if pos < p <= toks.len() {
                match parse_stmts(toks, p) {
                    Err(e) => Err(e),
                    Ok((rest, q)) => Ok((seq![stmt] + rest, q)),
                }
            } else {
                Err(unexpected(toks, p))
            },
        }
    }
}

/// A statement, with its semicolon.
pub open spec fn parse_stmt(toks: Seq<TokenV>, pos: int) -> Parsed<Statement>
    decreases toks.len() - pos, 4int,
{
    if kind_at(toks, pos) == Some(TokenKind::Keyword(Keyword::Let)) {
        match parse_local(toks, pos) {
            Err(e) => Err(e),
            Ok((local, p)) => if kind_at(toks, p) == Some(TokenKind::Semi) {
                Ok((Statement::LocalBinding(local), p + 1))
            } else if local.init is Some {
                Err(unexpected_after_value(toks, p))
            } else {
                Err(unexpected(toks, p))
            },
        }
    } else if starts_item(toks, pos) {
        match parse_item(toks, pos) {
            Err(e) => Err(e),
            Ok((item, p)) => Ok((Statement::NestedItem(item), p)),
        }
    } else {
        match parse_stmt_expr(toks, pos) {
            Err(e) => Err(e),
            Ok((e, p)) => if kind_at(toks, p) == Some(TokenKind::Semi) {
                Ok((Statement::ExpressionStatement(e), p + 1))
            } else if is_block_like(e) {
                Ok((Statement::ExpressionStatement(e), p))
            } else {
                Err(unexpected_after_value(toks, p))
            },
        }
    }
}

/// What follows `return` at `pos` ends the statement, so that the return
/// has no value.
pub open spec fn ends_return(toks: Seq<TokenV>, pos: int) -> bool {
    match kind_at(toks, pos) {
        Some(TokenKind::Semi) | Some(TokenKind::RBrace) | None => true,
        _ => false,
    }
}

/// What a value expression makes as a statement, with what follows it at
/// `pos`: an assignment where `=` or a compound operator follows, which
/// wants a name on its left; else the value itself.
#[verifier::opaque]
pub open spec fn parse_assignment(toks: Seq<TokenV>, start: int, pos: int, left: ValueExpr)
    -> Parsed<StmtExpr> {
    let compound = match op_at(toks, pos) {
        Some(op) => op.is_compound(),
        None => false,
    };
    if kind_at(toks, pos) == Some(TokenKind::Assign) || compound {
        match left {
            ValueExpr::Ident(ident) => match parse_value(toks, pos + 1) {
                Err(e) => Err(e),
                Ok((right, p)) => if compound {
                    Ok((StmtExpr::AssignOp { left: ident, op: op_at(toks, pos)->0, right }, p))
                } else {
                    Ok((StmtExpr::Assign { left: ident, right }, p))
                },
            },
            _ => Err(unsupported(toks, start)),
        }
    } else {
        Ok((StmtExpr::Value(left), pos))
    }
}

/// A statement expression.
pub open spec fn parse_stmt_expr(toks: Seq<TokenV>, pos: int) -> Parsed<StmtExpr>
    decreases toks.len() - pos, 3int,
{
    match kind_at(toks, pos) {
        Some(TokenKind::Keyword(Keyword::Return)) => if ends_return(toks, pos + 1) {
            Ok((StmtExpr::Return { span: toks[pos].span, expr: None }, pos + 1))
        } else {
            match parse_value(toks, pos + 1) {
                Err(e) => Err(e),
                Ok((e, p)) => Ok((StmtExpr::Return { span: toks[pos].span, expr: Some(e) }, p)),
            }
        },
        Some(TokenKind::Keyword(Keyword::If)) => parse_if(toks, pos),
        Some(TokenKind::LBrace) => match parse_block(toks, pos) {
            Err(e) => Err(e),
            Ok((b, p)) => Ok((StmtExpr::Block(b), p)),
        },
        _ => match parse_value(toks, pos) {
            Err(e) => Err(e),
            Ok((e, p)) => parse_assignment(toks, pos, p, e),
        },
    }
}

/// A conditional, from `if` to the end of its last branch.
pub open spec fn parse_if(toks: Seq<TokenV>, pos: int) -> Parsed<StmtExpr>
    decreases toks.len() - pos, 2int,
{
    if kind_at(toks, pos) != Some(TokenKind::Keyword(Keyword::If)) {
        Err(unexpected(toks, pos))
    } else {
        match parse_value(toks, pos + 1) {
            Err(e) => Err(e),
            Ok((cond, p)) => if kind_at(toks, p) != Some(TokenKind::LBrace) {
                Err(unexpected_after_value(toks, p))
            } else if pos < p <= toks.len() {
                match parse_block(toks, p) {
                    Err(e) => Err(e),
                    Ok((then_branch, q)) => if kind_at(toks, q) == Some(
                        TokenKind::Keyword(Keyword::Else),
                    ) && pos < q {
                        match parse_stmt_expr(toks, q + 1) {
                            Err(e) => Err(e),
                            Ok((e, r)) => Ok(
                                (
                                    StmtExpr::If {
                                        span: toks[pos].span,
                                        cond,
                                        then_branch,
                                        else_branch: Some((toks[q].span, Box::new(e))),
                                    },
                                    r,
                                ),
                            ),
                        }
                    } else {
                        Ok(
                            (
                                StmtExpr::If {
                                    span: toks[pos].span,
                                    cond,
                                    then_branch,
                                    else_branch: None,
                                },
                                q,
                            ),
                        )
                    },
                }
            } else {
                Err(unexpected(toks, p))
            },
        }
    }
}

/// An item of the module: an interface slot, a constant or a function.
pub open spec fn parse_top_item(toks: Seq<TokenV>, pos: int) -> Parsed<Item> {
    if word_at(toks, pos, "layout"@) {
        parse_layout(toks, pos)
    } else {
        parse_item(toks, pos)
    }
}

/// The items from `pos` to the end of the tokens.
pub open spec fn parse_items(toks: Seq<TokenV>, pos: int) -> Result<Seq<Item>, ParseError>
    decreases toks.len() - pos,
{
    if pos >= toks.len() || pos < 0 {
        Ok(Seq::empty())
    } else {
        match parse_top_item(toks, pos) {
            Err(e) => Err(e),
            Ok((item, p)) => if pos < p <= toks.len() {
                match parse_items(toks, p) {
                    Err(e) => Err(e),
                    Ok(rest) => Ok(seq![item] + rest),
                }
            } else {
                Err(unexpected(toks, p))
            },
        }
    }
}

/// The module that the tokens spell.
pub open spec fn parse_module(toks: Seq<TokenV>) -> Result<Module, ParseError> {
    match parse_items(toks, 0) {
        Err(e) => Err(e),
        Ok(items) => Ok(Module { items }),
    }
}

/// The keyword `k` is a visibility or a qualifier of the host language:
/// what may stand before an item there, and never does here.
pub open spec fn is_qualifier(k: Keyword) -> bool {
    k == Keyword::Pub || k == Keyword::Const || k == Keyword::Async || k == Keyword::Unsafe || k
        == Keyword::Extern
}

/// An item or a statement that starts with a visibility or a qualifier, as
/// `pub fn` and `const fn` do, is refused as an unsupported construct, at
/// that word.
pub proof fn lemma_qualified_item_is_unsupported(toks: Seq<TokenV>, pos: int, k: Keyword)
    requires
        kind_at(toks, pos) == Some(TokenKind::Keyword(k)),
        is_qualifier(k),
    ensures
        parse_item(toks, pos) == Err::<(Item, int), ParseError>(unsupported(toks, pos)),
        parse_top_item(toks, pos) == Err::<(Item, int), ParseError>(unsupported(toks, pos)),
        parse_stmt(toks, pos) == Err::<(Statement, int), ParseError>(unsupported(toks, pos)),
{
}

/// A word that the host language reserves and the shader language does
/// not use is refused as an unsupported construct wherever an item, a
/// statement or a value is wanted, at that word.
pub proof fn lemma_reserved_word_is_unsupported(toks: Seq<TokenV>, pos: int)
    requires
        kind_at(toks, pos) == Some(TokenKind::Keyword(Keyword::Reserved)),
    ensures
        parse_top_item(toks, pos) == Err::<(Item, int), ParseError>(unsupported(toks, pos)),
        parse_stmt(toks, pos) == Err::<(Statement, int), ParseError>(unsupported(toks, pos)),
        parse_expr(toks, pos) == Err::<(ValueExpr, int), ParseError>(unsupported(toks, pos)),
        parse_type(toks, pos) == Err::<(YaslType, int), ParseError>(unsupported(toks, pos)),
{
    reveal(parse_value);
    reveal(parse_type);
    reveal(parse_assignment);
    lemma_expr_fails_at_start(toks, pos, unsupported(toks, pos));
}

/// Where no literal, name or unary operator stands at `pos`, a value
/// expression fails there with the error of its first rule.
pub proof fn lemma_expr_fails_at_start(toks: Seq<TokenV>, pos: int, e: ParseError)
    requires
        parse_primary(toks, pos) == Err::<(ValueExpr, int), ParseError>(e),
        unop_at(toks, pos) is None,
    ensures
        parse_expr(toks, pos) == Err::<(ValueExpr, int), ParseError>(e),
{
}

/// A pattern in the place of a name, as the tuple in `let (a, b) = ...`
/// and the wildcard in `let _ = ...`, is refused as an unsupported
/// construct, at the pattern.
pub proof fn lemma_pattern_is_unsupported(toks: Seq<TokenV>, pos: int)
    requires
        kind_at(toks, pos) == Some(TokenKind::Keyword(Keyword::Let)),
        kind_at(toks, pos + 1) == Some(TokenKind::LParen) || word_at(toks, pos + 1, "_"@),
    ensures
        parse_local(toks, pos) == Err::<(LocalBinding, int), ParseError>(unsupported(toks, pos + 1)),
        parse_stmt(toks, pos) == Err::<(Statement, int), ParseError>(unsupported(toks, pos + 1)),
{
    reveal(parse_local);
    reveal(parse_name);
}

/// A tuple, array, reference or pointer in the place of a type is refused
/// as an unsupported construct.
pub proof fn lemma_compound_type_is_unsupported(toks: Seq<TokenV>, pos: int)
    requires
        kind_at(toks, pos) == Some(TokenKind::LParen) || kind_at(toks, pos) == Some(
            TokenKind::LBracket,
        ) || kind_at(toks, pos) == Some(TokenKind::Op(BinOp::BitAnd)) || kind_at(toks, pos)
            == Some(TokenKind::Op(BinOp::Mul)),
    ensures
        parse_type(toks, pos) == Err::<(YaslType, int), ParseError>(unsupported(toks, pos)),
{
    reveal(parse_type);
}

/// Generics after the name of a function are refused as an unsupported
/// construct, at the `<`.
pub proof fn lemma_generics_are_unsupported(toks: Seq<TokenV>, pos: int)
    requires
        kind_at(toks, pos) == Some(TokenKind::Keyword(Keyword::Fn)),
        kind_at(toks, pos + 1) == Some(TokenKind::Ident),
        toks[pos + 1].text != "_"@,
        kind_at(toks, pos + 2) == Some(TokenKind::Op(BinOp::Lt)),
    ensures
        parse_fn(toks, pos) == Err::<(Item, int), ParseError>(unsupported(toks, pos + 2)),
        parse_item(toks, pos) == Err::<(Item, int), ParseError>(unsupported(toks, pos + 2)),
{
    reveal(parse_signature);
    reveal(parse_name);
}

/// A path of two segments whose first names no namespace is refused as an
/// unknown namespace, at that segment, wherever a value is wanted.
pub proof fn lemma_unknown_namespace_is_refused(toks: Seq<TokenV>, pos: int)
    requires
        kind_at(toks, pos) == Some(TokenKind::Ident),
        kind_at(toks, pos + 1) == Some(TokenKind::PathSep),
        kind_at(toks, pos + 2) == Some(TokenKind::Ident),
        kind_at(toks, pos + 3) != Some(TokenKind::PathSep),
        crate::yasl_ident::namespace_prefix(toks[pos].text) is None,
    ensures
        parse_path(toks, pos) == Err::<(Identifier, int), ParseError>(
            ParseError {
                kind: ErrorKind::UnknownIdentifierNamespaceError,
                span: toks[pos].span,
            },
        ),
        parse_expr(toks, pos) == Err::<(ValueExpr, int), ParseError>(
            ParseError {
                kind: ErrorKind::UnknownIdentifierNamespaceError,
                span: toks[pos].span,
            },
        ),
{
    reveal(parse_path);
    lemma_expr_fails_at_start(
        toks,
        pos,
        ParseError { kind: ErrorKind::UnknownIdentifierNamespaceError, span: toks[pos].span },
    );
}

/// A parenthesized or tuple value, an array, a reference, a dereference
/// and a closure are refused as unsupported constructs wherever a value
/// is wanted.
pub proof fn lemma_host_value_is_unsupported(toks: Seq<TokenV>, pos: int)
    requires
        starts_unsupported_value(toks, pos),
    ensures
        parse_expr(toks, pos) == Err::<(ValueExpr, int), ParseError>(unsupported(toks, pos)),
{
    lemma_expr_fails_at_start(toks, pos, unsupported(toks, pos));
}

/// An assignment in the place of an argument, as in `f(a = b)`, is
/// refused as an unsupported construct, at the `=`.
pub proof fn lemma_assignment_as_argument_is_unsupported(
    toks: Seq<TokenV>,
    pos: int,
    e: ValueExpr,
    p: int,
)
    requires
        kind_at(toks, pos) != Some(TokenKind::RParen),
        parse_expr(toks, pos) == Ok::<(ValueExpr, int), ParseError>((e, p)),
        follows_host_value(toks, p),
    ensures
        parse_args(toks, pos) == Err::<(Seq<ValueExpr>, int), ParseError>(unsupported(toks, p)),
{
}

/// A value at the end of a block without a semicolon, which the host
/// language takes as the value of the block, is refused as an unsupported
/// construct, at the closing brace.
pub proof fn lemma_block_value_is_unsupported(toks: Seq<TokenV>, pos: int, e: StmtExpr, p: int)
    requires
        kind_at(toks, pos) != Some(TokenKind::Keyword(Keyword::Let)),
        !starts_item(toks, pos),
        parse_stmt_expr(toks, pos) == Ok::<(StmtExpr, int), ParseError>((e, p)),
        !is_block_like(e),
        kind_at(toks, p) == Some(TokenKind::RBrace),
    ensures
        parse_stmt(toks, pos) == Err::<(Statement, int), ParseError>(unsupported(toks, p)),
{
}

/// The call of a macro, a name and `!`, is refused as an unsupported
/// construct, at the `!`.
pub proof fn lemma_macro_call_is_unsupported(toks: Seq<TokenV>, pos: int)
    requires
        kind_at(toks, pos) == Some(TokenKind::Ident),
        kind_at(toks, pos + 1) == Some(TokenKind::Not),
    ensures
        parse_expr(toks, pos) == Err::<(ValueExpr, int), ParseError>(unsupported(toks, pos + 1)),
{
    reveal(parse_path);
    lemma_expr_fails_at_start(toks, pos, unsupported(toks, pos + 1));
}

} // verus!
