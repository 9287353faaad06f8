//! The parser: from tokens to the syntax tree, rule by rule as the
//! grammar states them.

use vstd::prelude::*;
use vstd::string::*;
use crate::error::{ErrorKind, ParseError};
use crate::grammar;
use crate::grammar::Parsed;
use crate::span::Span;
use crate::text::str_eq;
use crate::token::{BinOp, Keyword, Token, TokenKind, UnOp, tokens_view, tokens_wf};
use crate::yasl_expr::{
    LitKind, ValueExpr, YaslExprBinary, YaslExprCall, YaslExprCast, YaslExprField, YaslExprLineScope,
    YaslExprLit, YaslExprUnary, exprs_view, lemma_exprs_view_push,
};
use crate::yasl_ident::{Identifier, YaslIdent, lemma_prefixes_are_line_text};
use crate::yasl_type::{YaslScalarType, YaslType, YaslVecType};

verus! {

/// What a parse of a value without a view of its own states.
pub open spec fn plain_result<T>(r: Result<(T, usize), ParseError>) -> Parsed<T> {
    match r {
        Ok((t, p)) => Ok((t, p as int)),
        Err(e) => Err(e),
    }
}

/// What a parse of an identifier states.
pub open spec fn ident_result(r: Result<(YaslIdent, usize), ParseError>) -> Parsed<Identifier> {
    match r {
        Ok((t, p)) => Ok((t@, p as int)),
        Err(e) => Err(e),
    }
}

/// What a parse of a value expression states.
pub open spec fn expr_result(r: Result<(YaslExprLineScope, usize), ParseError>) -> Parsed<
    ValueExpr,
> {
    match r {
        Ok((t, p)) => Ok((t@, p as int)),
        Err(e) => Err(e),
    }
}

/// What a parse of a list of value expressions states.
pub open spec fn exprs_result(r: Result<(Vec<YaslExprLineScope>, usize), ParseError>) -> Parsed<
    Seq<ValueExpr>,
> {
    match r {
        Ok((t, p)) => Ok((exprs_view(t@), p as int)),
        Err(e) => Err(e),
    }
}

/// The position that a successful parse returns lies after `pos` and
/// within the tokens.
pub open spec fn advances<T>(r: Result<(T, usize), ParseError>, pos: usize, len: usize) -> bool {
    r matches Ok((_, p)) ==> pos < p <= len
}

/// The kind of the token at `pos`; `None` past the end.
pub fn peek(tokens: &Vec<Token>, pos: usize) -> (k: Option<TokenKind>)
    ensures
        k == grammar::kind_at(tokens_view(tokens@), pos as int),
        k is Some <==> pos < tokens.len(),
{
    if pos < tokens.len() {
        Some(tokens[pos].kind)
    } else {
        None
    }
}

/// Whether the token at `pos` is of kind `kind`.
pub fn is_kind(tokens: &Vec<Token>, pos: usize, kind: TokenKind) -> (b: bool)
    ensures
        b == (grammar::kind_at(tokens_view(tokens@), pos as int) == Some(kind)),
        b ==> pos < tokens.len(),
{
    pos < tokens.len() && tokens[pos].kind == kind
}

/// The error of kind `kind` at the token at `pos`.
pub fn error_at(tokens: &Vec<Token>, pos: usize, kind: ErrorKind) -> (e: ParseError)
    ensures
        e == grammar::error_at(tokens_view(tokens@), pos as int, kind),
{
    let span = if pos < tokens.len() {
        tokens[pos].span
    } else if tokens.len() > 0 {
        let end = tokens[tokens.len() - 1].span.end;
        Span { start: end, end }
    } else {
        Span { start: 0, end: 0 }
    };
    ParseError { kind, span }
}

/// The error for a token that fits no rule.
pub fn unexpected(tokens: &Vec<Token>, pos: usize) -> (e: ParseError)
    ensures
        e == grammar::unexpected(tokens_view(tokens@), pos as int),
{
    match peek(tokens, pos) {
        Some(TokenKind::Keyword(_)) => error_at(tokens, pos, ErrorKind::UnsupportedConstructError),
        _ => error_at(tokens, pos, ErrorKind::SyntaxError),
    }
}

/// The error for a token that may not follow a value.
pub fn unexpected_after_value(tokens: &Vec<Token>, pos: usize) -> (e: ParseError)
    ensures
        e == grammar::unexpected_after_value(tokens_view(tokens@), pos as int),
{
    let host = match peek(tokens, pos) {
        Some(TokenKind::Assign) | Some(TokenKind::LBrace) | Some(TokenKind::RBrace) => true,
        Some(TokenKind::Op(op)) => op.compound(),
        _ => false,
    };
    if host {
        unsupported(tokens, pos)
    } else {
        unexpected(tokens, pos)
    }
}

/// The error for a construct that the shader language leaves out.
pub fn unsupported(tokens: &Vec<Token>, pos: usize) -> (e: ParseError)
    ensures
        e == grammar::unsupported(tokens_view(tokens@), pos as int),
{
    error_at(tokens, pos, ErrorKind::UnsupportedConstructError)
}

impl YaslType {
    /// Reads a type at `pos`: the name of a scalar, or `vec2`, `vec3` or
    /// `vec4` with the name of a scalar between `<` and `>`.
    ///
    /// Another name is an unknown type, and so is a vector with more than
    /// one component type. A tuple, array, reference, pointer or never
    /// type is an unsupported construct.
    pub fn parse(tokens: &Vec<Token>, pos: usize) -> (r: Result<(YaslType, usize), ParseError>)
        ensures
            plain_result(r) == grammar::parse_type(tokens_view(tokens@), pos as int),
            advances(r, pos, tokens.len()),
    {
        proof {
            reveal(grammar::parse_type);
        }
        match peek(tokens, pos) {
            Some(TokenKind::Ident) => {
                let name = tokens[pos].text.as_str();
                if is_kind(tokens, pos + 1, TokenKind::Op(BinOp::Lt)) {
                    let vec2 = str_eq(name, "vec2");
                    let vec3 = str_eq(name, "vec3");
                    let vec4 = str_eq(name, "vec4");
                    if !(vec2 || vec3 || vec4) {
                        return Err(error_at(tokens, pos, ErrorKind::UnknownTypeError));
                    }
                    if !is_kind(tokens, pos + 2, TokenKind::Ident) {
                        return Err(unexpected(tokens, pos + 2));
                    }
                    match YaslScalarType::from_name(tokens[pos + 2].text.as_str()) {
                        None => Err(error_at(tokens, pos + 2, ErrorKind::UnknownTypeError)),
                        Some(c) => {
                            if is_kind(tokens, pos + 3, TokenKind::Op(BinOp::Gt)) {
                                let v = if vec2 {
                                    YaslVecType::Vec2(c)
                                } else if vec3 {
                                    YaslVecType::Vec3(c)
                                } else {
                                    YaslVecType::Vec4(c)
                                };
                                Ok((YaslType::Vec(v), pos + 4))
                            } else if is_kind(tokens, pos + 3, TokenKind::Comma) {
                                Err(error_at(tokens, pos, ErrorKind::UnknownTypeError))
                            } else {
                                Err(unexpected(tokens, pos + 3))
                            }
                        },
                    }
                } else {
                    match YaslScalarType::from_name(name) {
                        Some(s) => Ok((YaslType::ScalarType(s), pos + 1)),
                        None => Err(error_at(tokens, pos, ErrorKind::UnknownTypeError)),
                    }
                }
            },
            Some(TokenKind::LParen) | Some(TokenKind::LBracket) | Some(
                TokenKind::Op(BinOp::BitAnd),
            ) | Some(TokenKind::Op(BinOp::Mul)) | Some(TokenKind::Not) => Err(
                unsupported(tokens, pos),
            ),
            _ => Err(unexpected(tokens, pos)),
        }
    }
}

impl YaslIdent {
    /// Reads a name in value position: an identifier, which gets the
    /// default prefix, or a namespace, `::` and an identifier, which gets
    /// the prefix that the namespace selects.
    ///
    /// A namespace that does not exist is refused as such; a path of more
    /// than two segments or with generic arguments is an unsupported
    /// construct.
    pub fn parse_path(tokens: &Vec<Token>, pos: usize) -> (r: Result<(YaslIdent, usize), ParseError>)
        requires
            tokens_wf(tokens_view(tokens@)),
        ensures
            ident_result(r) == grammar::parse_path(tokens_view(tokens@), pos as int),
            advances(r, pos, tokens.len()),
            r matches Ok((i, _)) ==> i@.wf(),
    {
        proof {
            reveal(grammar::parse_path);
        }
        if !is_kind(tokens, pos, TokenKind::Ident) {
            return Err(unexpected(tokens, pos));
        }
        proof {
            lemma_prefixes_are_line_text(tokens@[pos as int].text@);
            assert(tokens_view(tokens@)[pos as int].wf());
        }
        if is_kind(tokens, pos + 1, TokenKind::PathSep) {
            if is_kind(tokens, pos + 2, TokenKind::Op(BinOp::Lt)) {
                return Err(unsupported(tokens, pos + 2));
            }
            if !is_kind(tokens, pos + 2, TokenKind::Ident) {
                return Err(unexpected(tokens, pos + 2));
            }
            if is_kind(tokens, pos + 3, TokenKind::PathSep) {
                return Err(unsupported(tokens, pos + 3));
            }
            assert(tokens_view(tokens@)[pos + 2].wf());
            match YaslIdent::with_namespace(
                tokens[pos].text.as_str(),
                tokens[pos].span,
                tokens[pos + 2].text.clone(),
                tokens[pos + 2].span,
            ) {
                Ok(id) => Ok((id, pos + 3)),
                Err(e) => Err(e),
            }
        } else {
            Ok((YaslIdent::new(tokens[pos].text.clone(), tokens[pos].span), pos + 1))
        }
    }
}

impl YaslExprLit {
    /// The literal that the token at `pos` is, if it is one: an integer, a
    /// float, `true` or `false`.
    pub fn at(tokens: &Vec<Token>, pos: usize) -> (r: Option<YaslExprLit>)
        requires
            tokens_wf(tokens_view(tokens@)),
        ensures
            match r {
                Some(l) => grammar::literal_at(tokens_view(tokens@), pos as int) == Some(l@)
                    && pos < tokens.len() && l@.wf(),
                None => grammar::literal_at(tokens_view(tokens@), pos as int) is None,
            },
    {
        let kind = match peek(tokens, pos) {
            Some(TokenKind::Int) => LitKind::Int,
            Some(TokenKind::Float) => LitKind::Float,
            Some(TokenKind::Keyword(Keyword::True)) | Some(TokenKind::Keyword(Keyword::False)) =>
                LitKind::Bool,
            _ => {
                return None;
            },
        };
        assert(tokens_view(tokens@)[pos as int].wf());
        Some(YaslExprLit { kind, text: tokens[pos].text.clone(), span: tokens[pos].span })
    }
}

impl YaslExprCall {
    /// Reads the arguments of a call, after its opening parenthesis and up
    /// to the closing one.
    #[verifier::loop_isolation(false)]
    pub fn parse_args(tokens: &Vec<Token>, pos: usize) -> (r: Result<
        (Vec<YaslExprLineScope>, usize),
        ParseError,
    >)
        requires
            tokens_wf(tokens_view(tokens@)),
        ensures
            exprs_result(r) == grammar::parse_args(tokens_view(tokens@), pos as int),
            advances(r, pos, tokens.len()),
            r matches Ok((v, _)) ==> forall|i: int|
                0 <= i < v@.len() ==> (#[trigger] exprs_view(v@)[i]).wf(),
        decreases tokens.len() - pos, 7int,
    {
        let ghost toks = tokens_view(tokens@);
        let mut args: Vec<YaslExprLineScope> = Vec::new();
        let mut p: usize = pos;
        assert(exprs_view(args@) =~= Seq::<ValueExpr>::empty());
        loop
            invariant
                pos <= p,
                p == pos || p <= tokens.len(),
                grammar::parse_args(toks, pos as int) == prepend(
                    exprs_view(args@),
                    grammar::parse_args(toks, p as int),
                ),
                forall|i: int| 0 <= i < args@.len() ==> (#[trigger] exprs_view(args@)[i]).wf(),
            decreases tokens.len() - p,
        {
            if is_kind(tokens, p, TokenKind::RParen) {
                assert(exprs_view(args@) + Seq::<ValueExpr>::empty() =~= exprs_view(args@));
                return Ok((args, p + 1));
            }
            match YaslExprLineScope::parse_expr(tokens, p) {
                Err(e) => {
                    return Err(e);
                },
                Ok((e, q)) => {
                    let ghost before = args@;
                    let ghost ev = e@;
                    if is_kind(tokens, q, TokenKind::Comma) {
                        args.push(e);
                        proof {
                            lemma_exprs_view_push(before, e);
                            if let Ok((rest, _)) = grammar::parse_args(toks, q + 1) {
                                assert((exprs_view(before) + seq![ev]) + rest =~= exprs_view(before)
                                    + (seq![ev] + rest));
                            }
                            assert(exprs_view(before).push(ev) =~= exprs_view(before) + seq![ev]);
                        }
                        p = q + 1;
                    } else if is_kind(tokens, q, TokenKind::RParen) {
                        args.push(e);
                        proof {
                            lemma_exprs_view_push(before, e);
                            assert(exprs_view(before).push(ev) =~= exprs_view(before) + seq![ev]);
                        }
                        return Ok((args, q + 1));
                    } else {
                        return Err(unexpected_after_value(tokens, q));
                    }
                },
            }
        }
    }
}

/// The elements `done`, followed by what `rest` holds.
pub open spec fn prepend<T>(done: Seq<T>, rest: Parsed<Seq<T>>) -> Parsed<Seq<T>> {
    match rest {
        Ok((r, p)) => Ok((done + r, p)),
        Err(e) => Err(e),
    }
}

impl YaslExprLineScope {
    /// Reads a literal, a name, or a call. A `!` after the name is the call
    /// of a macro: an unsupported construct.
    pub fn parse_primary(tokens: &Vec<Token>, pos: usize) -> (r: Result<
        (YaslExprLineScope, usize),
        ParseError,
    >)
        requires
            tokens_wf(tokens_view(tokens@)),
        ensures
            expr_result(r) == grammar::parse_primary(tokens_view(tokens@), pos as int),
            advances(r, pos, tokens.len()),
            r matches Ok((e, _)) ==> e@.wf(),
        decreases tokens.len() - pos, 0int,
    {
        if let Some(lit) = YaslExprLit::at(tokens, pos) {
            return Ok((YaslExprLineScope::Lit(lit), pos + 1));
        }
        match peek(tokens, pos) {
            Some(TokenKind::Ident) => {
                match YaslIdent::parse_path(tokens, pos) {
                    Err(e) => Err(e),
                    Ok((ident, p)) => {
                        if is_kind(tokens, p, TokenKind::Not) {
                            Err(unsupported(tokens, p))
                        } else if is_kind(tokens, p, TokenKind::LParen) {
                            match YaslExprCall::parse_args(tokens, p + 1) {
                                Err(e) => Err(e),
                                Ok((args, q)) => Ok(
                                    (YaslExprLineScope::Call(YaslExprCall { ident, args }), q),
                                ),
                            }
                        } else {
                            Ok((YaslExprLineScope::Ident(ident), p))
                        }
                    },
                }
            },
            Some(TokenKind::LParen) | Some(TokenKind::LBracket) | Some(TokenKind::LBrace) | Some(
                TokenKind::Dot,
            ) | Some(TokenKind::Op(BinOp::BitAnd)) | Some(TokenKind::Op(BinOp::Mul)) | Some(
                TokenKind::Op(BinOp::Or),
            ) | Some(TokenKind::Op(BinOp::BitOr)) | Some(TokenKind::Op(BinOp::And)) => Err(
                unsupported(tokens, pos),
            ),
            _ => Err(unexpected(tokens, pos)),
        }
    }

    /// Reads the member accesses that follow `base`.
    pub fn parse_members(tokens: &Vec<Token>, pos: usize, base: YaslExprLineScope) -> (r: Result<
        (YaslExprLineScope, usize),
        ParseError,
    >)
        requires
            tokens_wf(tokens_view(tokens@)),
            base@.wf(),
        ensures
            expr_result(r) == grammar::parse_members(tokens_view(tokens@), pos as int, base@),
            r matches Ok((_, p)) ==> pos <= p && (pos <= tokens.len() ==> p <= tokens.len()),
            r matches Ok((e, _)) ==> e@.wf(),
        decreases tokens.len() - pos,
    {
        if is_kind(tokens, pos, TokenKind::Dot) {
            match peek(tokens, pos + 1) {
                Some(TokenKind::Ident) => {
                    if is_kind(tokens, pos + 2, TokenKind::LParen) {
                        Err(unsupported(tokens, pos + 1))
                    } else {
                        assert(tokens_view(tokens@)[pos + 1].wf());
                        let field = YaslExprField {
                            base: Box::new(base),
                            member: tokens[pos + 1].text.clone(),
                            span: tokens[pos + 1].span,
                        };
                        YaslExprLineScope::parse_members(
                            tokens,
                            pos + 2,
                            YaslExprLineScope::Field(field),
                        )
                    }
                },
                Some(TokenKind::Int) | Some(TokenKind::Float) | Some(TokenKind::Dot) => Err(
                    unsupported(tokens, pos + 1),
                ),
                _ => Err(unexpected(tokens, pos + 1)),
            }
        } else if is_kind(tokens, pos, TokenKind::LBracket) {
            Err(unsupported(tokens, pos))
        } else {
            Ok((base, pos))
        }
    }

    /// Reads a literal, name or call with the member accesses that follow
    /// it.
    pub fn parse_postfix(tokens: &Vec<Token>, pos: usize) -> (r: Result<
        (YaslExprLineScope, usize),
        ParseError,
    >)
        requires
            tokens_wf(tokens_view(tokens@)),
        ensures
            expr_result(r) == grammar::parse_postfix(tokens_view(tokens@), pos as int),
            advances(r, pos, tokens.len()),
            r matches Ok((e, _)) ==> e@.wf(),
        decreases tokens.len() - pos, 1int,
    {
        match YaslExprLineScope::parse_primary(tokens, pos) {
            Err(e) => Err(e),
            Ok((e, p)) => YaslExprLineScope::parse_members(tokens, p, e),
        }
    }

    /// Reads a value with the unary operators before it.
    pub fn parse_unary(tokens: &Vec<Token>, pos: usize) -> (r: Result<
        (YaslExprLineScope, usize),
        ParseError,
    >)
        requires
            tokens_wf(tokens_view(tokens@)),
        ensures
            expr_result(r) == grammar::parse_unary(tokens_view(tokens@), pos as int),
            advances(r, pos, tokens.len()),
            r matches Ok((e, _)) ==> e@.wf(),
        decreases tokens.len() - pos, 2int,
    {
        let op = match peek(tokens, pos) {
            Some(TokenKind::Not) => UnOp::Not,
            Some(TokenKind::Op(BinOp::Sub)) => UnOp::Neg,
            _ => {
                return YaslExprLineScope::parse_postfix(tokens, pos);
            },
        };
        match YaslExprLineScope::parse_unary(tokens, pos + 1) {
            Err(e) => Err(e),
            Ok((e, p)) => Ok(
                (
                    YaslExprLineScope::Unary(
                        YaslExprUnary { op, expr: Box::new(e), span: tokens[pos].span },
                    ),
                    p,
                ),
            ),
        }
    }

    /// Reads the conversions that follow `expr`.
    pub fn parse_casts(tokens: &Vec<Token>, pos: usize, expr: YaslExprLineScope) -> (r: Result<
        (YaslExprLineScope, usize),
        ParseError,
    >)
        requires
            tokens_wf(tokens_view(tokens@)),
            expr@.wf(),
        ensures
            expr_result(r) == grammar::parse_casts(tokens_view(tokens@), pos as int, expr@),
            r matches Ok((_, p)) ==> pos <= p && (pos <= tokens.len() ==> p <= tokens.len()),
            r matches Ok((e, _)) ==> e@.wf(),
        decreases tokens.len() - pos,
    {
        if is_kind(tokens, pos, TokenKind::Keyword(Keyword::As)) {
            match YaslType::parse(tokens, pos + 1) {
                Err(e) => Err(e),
                Ok((ty, p)) => YaslExprLineScope::parse_casts(
                    tokens,
                    p,
                    YaslExprLineScope::Cast(YaslExprCast { expr: Box::new(expr), ty }),
                ),
            }
        } else {
            Ok((expr, pos))
        }
    }

    /// Reads a value with the conversions that follow it.
    pub fn parse_cast(tokens: &Vec<Token>, pos: usize) -> (r: Result<
        (YaslExprLineScope, usize),
        ParseError,
    >)
        requires
            tokens_wf(tokens_view(tokens@)),
        ensures
            expr_result(r) == grammar::parse_cast(tokens_view(tokens@), pos as int),
            advances(r, pos, tokens.len()),
            r matches Ok((e, _)) ==> e@.wf(),
        decreases tokens.len() - pos, 3int,
    {
        match YaslExprLineScope::parse_unary(tokens, pos) {
            Err(e) => Err(e),
            Ok((e, p)) => YaslExprLineScope::parse_casts(tokens, p, e),
        }
    }

    /// Reads the operators of precedence `min` or more that follow `left`,
    /// with their right operands.
    pub fn parse_operators(tokens: &Vec<Token>, pos: usize, left: YaslExprLineScope, min: u8) -> (r:
        Result<(YaslExprLineScope, usize), ParseError>)
        requires
            tokens_wf(tokens_view(tokens@)),
            left@.wf(),
        ensures
            expr_result(r) == grammar::parse_operators(
                tokens_view(tokens@),
                pos as int,
                left@,
                min as nat,
            ),
            r matches Ok((_, p)) ==> pos <= p && (pos <= tokens.len() ==> p <= tokens.len()),
            r matches Ok((e, _)) ==> e@.wf(),
        decreases tokens.len() - pos, 4int,
    {
        match peek(tokens, pos) {
            Some(TokenKind::Op(op)) => {
                let prec = op.binding();
                if prec >= min && prec > 0 {
                    match YaslExprLineScope::parse_binary(tokens, pos + 1, prec + 1) {
                        Err(e) => Err(e),
                        Ok((right, p)) => YaslExprLineScope::parse_operators(
                            tokens,
                            p,
                            YaslExprLineScope::Binary(
                                YaslExprBinary { left: Box::new(left), op, right: Box::new(right) },
                            ),
                            min,
                        ),
                    }
                } else {
                    Ok((left, pos))
                }
            },
            _ => Ok((left, pos)),
        }
    }

    /// Reads a value made with binary operators of precedence `min` or
    /// more.
    pub fn parse_binary(tokens: &Vec<Token>, pos: usize, min: u8) -> (r: Result<
        (YaslExprLineScope, usize),
        ParseError,
    >)
        requires
            tokens_wf(tokens_view(tokens@)),
        ensures
            expr_result(r) == grammar::parse_binary(tokens_view(tokens@), pos as int, min as nat),
            advances(r, pos, tokens.len()),
            r matches Ok((e, _)) ==> e@.wf(),
        decreases tokens.len() - pos, 5int,
    {
        match YaslExprLineScope::parse_cast(tokens, pos) {
            Err(e) => Err(e),
            Ok((left, p)) => YaslExprLineScope::parse_operators(tokens, p, left, min),
        }
    }

    /// Reads a value expression at `pos`.
    ///
    /// Member access binds tightest, then the unary operators, then `as`,
    /// then the binary operators by their precedence, each to the left.
    /// What the host language has besides (parentheses, tuples, arrays,
    /// blocks, ranges, indexing, method and macro calls, references,
    /// closures, its reserved words) is an unsupported construct.
    pub fn parse(tokens: &Vec<Token>, pos: usize) -> (r: Result<
        (YaslExprLineScope, usize),
        ParseError,
    >)
        requires
            tokens_wf(tokens_view(tokens@)),
        ensures
            expr_result(r) == grammar::parse_value(tokens_view(tokens@), pos as int),
            expr_result(r) == grammar::parse_expr(tokens_view(tokens@), pos as int),
            advances(r, pos, tokens.len()),
            r matches Ok((e, _)) ==> e@.wf(),
    {
        proof {
            reveal(grammar::parse_value);
        }
        YaslExprLineScope::parse_expr(tokens, pos)
    }

    /// Reads a value expression at `pos`, as the rules for value
    /// expressions see it.
    pub fn parse_expr(tokens: &Vec<Token>, pos: usize) -> (r: Result<
        (YaslExprLineScope, usize),
        ParseError,
    >)
        requires
            tokens_wf(tokens_view(tokens@)),
        ensures
            expr_result(r) == grammar::parse_expr(tokens_view(tokens@), pos as int),
            advances(r, pos, tokens.len()),
            r matches Ok((e, _)) ==> e@.wf(),
        decreases tokens.len() - pos, 6int,
    {
        YaslExprLineScope::parse_binary(tokens, pos, 1)
    }
}

} // verus!
