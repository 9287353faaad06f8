//! The parser for statements, blocks, items and the module.

use vstd::prelude::*;
use vstd::string::*;
use crate::error::{ErrorKind, ParseError};
use crate::grammar;
use crate::grammar::Parsed;
use crate::number::read_number;
use crate::parser::{
    advances, error_at, ident_result, is_kind, peek, prepend, unexpected, unexpected_after_value,
    unsupported,
};
use crate::text::{str_eq, to_chars};
use crate::token::{BinOp, Keyword, Token, TokenKind, tokens_view, tokens_wf};
use crate::yasl_block::{Block, YaslBlock};
use crate::yasl_expr::{
    StmtExpr, YaslExprAssign, YaslExprAssignOp, YaslExprFunctionScope, YaslExprIf,
    YaslExprLineScope, YaslExprReturn,
};
use crate::yasl_file::YaslFile;
use crate::yasl_ident::{Identifier, YaslIdent, lemma_prefixes_are_line_text};
use crate::yasl_item::{
    Item, LayoutKind, YaslItem, YaslItemFn, YaslItemLayout, YaslItemStatic, items_view,
    lemma_items_view_push, params_view,
};
use crate::yasl_stmt::{
    LocalBinding, Statement, YaslLocal, YaslStmt, lemma_stmts_view_push, stmts_view,
};
use crate::yasl_type::YaslType;

verus! {

/// What a parse of a `let` states.
pub open spec fn local_result(r: Result<(YaslLocal, usize), ParseError>) -> Parsed<LocalBinding> {
    match r {
        Ok((t, p)) => Ok((t@, p as int)),
        Err(e) => Err(e),
    }
}

/// What a parse of an item states.
pub open spec fn item_result(r: Result<(YaslItem, usize), ParseError>) -> Parsed<Item> {
    match r {
        Ok((t, p)) => Ok((t@, p as int)),
        Err(e) => Err(e),
    }
}

/// What a parse of a parameter states.
pub open spec fn param_result(r: Result<((YaslIdent, YaslType), usize), ParseError>) -> Parsed<
    (Identifier, YaslType),
> {
    match r {
        Ok((t, p)) => Ok(((t.0@, t.1), p as int)),
        Err(e) => Err(e),
    }
}

/// What a parse of a list of parameters states.
pub open spec fn params_result(r: Result<(Vec<(YaslIdent, YaslType)>, usize), ParseError>)
    -> Parsed<Seq<(Identifier, YaslType)>> {
    match r {
        Ok((t, p)) => Ok((params_view(t@), p as int)),
        Err(e) => Err(e),
    }
}

/// What a parse of the head of a function states.
pub open spec fn signature_result(
    r: Result<((YaslIdent, Vec<(YaslIdent, YaslType)>, YaslType), usize), ParseError>,
) -> Parsed<(Identifier, Seq<(Identifier, YaslType)>, YaslType)> {
    match r {
        Ok((t, p)) => Ok(((t.0@, params_view(t.1@), t.2), p as int)),
        Err(e) => Err(e),
    }
}

/// What a parse of a block states.
pub open spec fn block_result(r: Result<(YaslBlock, usize), ParseError>) -> Parsed<Block> {
    match r {
        Ok((t, p)) => Ok((t@, p as int)),
        Err(e) => Err(e),
    }
}

/// What a parse of a statement states.
pub open spec fn stmt_result(r: Result<(YaslStmt, usize), ParseError>) -> Parsed<Statement> {
    match r {
        Ok((t, p)) => Ok((t@, p as int)),
        Err(e) => Err(e),
    }
}

/// What a parse of a statement expression states.
pub open spec fn stmt_expr_result(r: Result<(YaslExprFunctionScope, usize), ParseError>) -> Parsed<
    StmtExpr,
> {
    match r {
        Ok((t, p)) => Ok((t@, p as int)),
        Err(e) => Err(e),
    }
}

/// The items `done`, followed by what `rest` holds.
pub open spec fn prepend_items(done: Seq<Item>, rest: Result<Seq<Item>, ParseError>) -> Result<
    Seq<Item>,
    ParseError,
> {
    match rest {
        Ok(r) => Ok(done + r),
        Err(e) => Err(e),
    }
}

/// Every parameter has a name without line feed.
pub open spec fn params_wf(params: Seq<(Identifier, YaslType)>) -> bool {
    forall|i: int| 0 <= i < params.len() ==> (#[trigger] params[i]).0.wf()
}

impl YaslIdent {
    /// Reads the name that a binding, a parameter or an item declares. It
    /// gets the default prefix. A pattern of the host language in its
    /// place is an unsupported construct.
    pub fn parse_name(tokens: &Vec<Token>, pos: usize) -> (r: Result<(YaslIdent, usize), ParseError>)
        requires
            tokens_wf(tokens_view(tokens@)),
        ensures
            ident_result(r) == grammar::parse_name(tokens_view(tokens@), pos as int),
            advances(r, pos, tokens.len()),
            r matches Ok((i, _)) ==> i@.wf(),
    {
        proof {
            reveal(grammar::parse_name);
        }
        match peek(tokens, pos) {
            Some(TokenKind::Ident) => {
                if str_eq(tokens[pos].text.as_str(), "_") {
                    Err(unsupported(tokens, pos))
                } else {
                    proof {
                        lemma_prefixes_are_line_text(tokens@[pos as int].text@);
                        assert(tokens_view(tokens@)[pos as int].wf());
                    }
                    Ok((YaslIdent::new(tokens[pos].text.clone(), tokens[pos].span), pos + 1))
                }
            },
            Some(TokenKind::LParen) | Some(TokenKind::LBracket) | Some(
                TokenKind::Op(BinOp::BitAnd),
            ) => Err(unsupported(tokens, pos)),
            _ => Err(unexpected(tokens, pos)),
        }
    }
}

impl YaslLocal {
    /// Reads a `let` at `pos`, up to its semicolon, which it leaves: the
    /// name, a type where a colon follows, an initializer where `=`
    /// follows.
    pub fn parse(tokens: &Vec<Token>, pos: usize) -> (r: Result<(YaslLocal, usize), ParseError>)
        requires
            tokens_wf(tokens_view(tokens@)),
        ensures
            local_result(r) == grammar::parse_local(tokens_view(tokens@), pos as int),
            advances(r, pos, tokens.len()),
            r matches Ok((l, _)) ==> l@.wf(),
    {
        proof {
            reveal(grammar::parse_local);
        }
        if !is_kind(tokens, pos, TokenKind::Keyword(Keyword::Let)) {
            return Err(unexpected(tokens, pos));
        }
        let (ident, p) = match YaslIdent::parse_name(tokens, pos + 1) {
            Err(e) => {
                return Err(e);
            },
            Ok(found) => found,
        };
        let (ty, q) = if is_kind(tokens, p, TokenKind::Colon) {
            match YaslType::parse(tokens, p + 1) {
                Err(e) => {
                    return Err(e);
                },
                Ok((ty, q)) => (Some(ty), q),
            }
        } else {
            (None, p)
        };
        if is_kind(tokens, q, TokenKind::Assign) {
            match YaslExprLineScope::parse(tokens, q + 1) {
                Err(e) => Err(e),
                Ok((init, r)) => Ok((YaslLocal { ident, ty, init: Some(init) }, r)),
            }
        } else {
            Ok((YaslLocal { ident, ty, init: None }, q))
        }
    }
}

impl YaslItemStatic {
    /// Reads a constant at `pos`: `static`, its name, a colon, its type,
    /// `=`, its value and a semicolon.
    pub fn parse(tokens: &Vec<Token>, pos: usize) -> (r: Result<(YaslItem, usize), ParseError>)
        requires
            tokens_wf(tokens_view(tokens@)),
        ensures
            item_result(r) == grammar::parse_static(tokens_view(tokens@), pos as int),
            advances(r, pos, tokens.len()),
            r matches Ok((i, _)) ==> i@.wf(),
    {
        proof {
            reveal(grammar::parse_static);
        }
        if !is_kind(tokens, pos, TokenKind::Keyword(Keyword::Static)) {
            return Err(unexpected(tokens, pos));
        }
        let (ident, p) = match YaslIdent::parse_name(tokens, pos + 1) {
            Err(e) => {
                return Err(e);
            },
            Ok(found) => found,
        };
        if !is_kind(tokens, p, TokenKind::Colon) {
            return Err(unexpected(tokens, p));
        }
        let (ty, q) = match YaslType::parse(tokens, p + 1) {
            Err(e) => {
                return Err(e);
            },
            Ok(found) => found,
        };
        if !is_kind(tokens, q, TokenKind::Assign) {
            return Err(unexpected(tokens, q));
        }
        let (expr, r) = match YaslExprLineScope::parse(tokens, q + 1) {
            Err(e) => {
                return Err(e);
            },
            Ok(found) => found,
        };
        if !is_kind(tokens, r, TokenKind::Semi) {
            return Err(unexpected_after_value(tokens, r));
        }
        Ok((YaslItem::Static(YaslItemStatic { ident, ty, expr }), r + 1))
    }
}

/// Whether the token at `pos` is the identifier `word`.
pub fn is_word(tokens: &Vec<Token>, pos: usize, word: &str) -> (b: bool)
    ensures
        b == grammar::word_at(tokens_view(tokens@), pos as int, word@),
        b ==> pos < tokens.len(),
{
    is_kind(tokens, pos, TokenKind::Ident) && str_eq(tokens[pos].text.as_str(), word)
}

impl YaslItemLayout {
    /// Reads an interface slot at `pos`: `layout`, then between `<` and
    /// `>` the direction, `input` or `output`, a comma and the slot index;
    /// then the name, a colon, the type and a semicolon.
    ///
    /// Another direction is a syntax error at `layout`; an index that does
    /// not fit the machine is a syntax error at the index.
    pub fn parse(tokens: &Vec<Token>, pos: usize) -> (r: Result<(YaslItem, usize), ParseError>)
        requires
            tokens_wf(tokens_view(tokens@)),
        ensures
            item_result(r) == grammar::parse_layout(tokens_view(tokens@), pos as int),
            advances(r, pos, tokens.len()),
            r matches Ok((i, _)) ==> i@.wf(),
    {
        proof {
            reveal(grammar::parse_layout);
        }
        if !is_word(tokens, pos, "layout") {
            return Err(unexpected(tokens, pos));
        }
        if !is_kind(tokens, pos + 1, TokenKind::Op(BinOp::Lt)) {
            return Err(unexpected(tokens, pos + 1));
        }
        let kind = if is_word(tokens, pos + 2, "input") {
            LayoutKind::Input
        } else if is_word(tokens, pos + 2, "output") {
            LayoutKind::Output
        } else {
            return Err(error_at(tokens, pos, ErrorKind::SyntaxError));
        };
        if !is_kind(tokens, pos + 3, TokenKind::Comma) {
            return Err(unexpected(tokens, pos + 3));
        }
        if !is_kind(tokens, pos + 4, TokenKind::Int) {
            return Err(unexpected(tokens, pos + 4));
        }
        let digits = to_chars(tokens[pos + 4].text.as_str());
        assert(digits@.subrange(0, digits.len() as int) =~= digits@);
        let slot = match read_number(&digits, 0, digits.len()) {
            None => {
                return Err(error_at(tokens, pos + 4, ErrorKind::SyntaxError));
            },
            Some(n) => n,
        };
        if !is_kind(tokens, pos + 5, TokenKind::Op(BinOp::Gt)) {
            return Err(unexpected(tokens, pos + 5));
        }
        let (ident, p) = match YaslIdent::parse_name(tokens, pos + 6) {
            Err(e) => {
                return Err(e);
            },
            Ok(found) => found,
        };
        if !is_kind(tokens, p, TokenKind::Colon) {
            return Err(unexpected(tokens, p));
        }
        let (ty, q) = match YaslType::parse(tokens, p + 1) {
            Err(e) => {
                return Err(e);
            },
            Ok(found) => found,
        };
        if !is_kind(tokens, q, TokenKind::Semi) {
            return Err(unexpected(tokens, q));
        }
        Ok((YaslItem::Layout(YaslItemLayout { kind, pos: slot, ident, ty }), q + 1))
    }
}

impl YaslItemFn {
    /// Reads a parameter: a name, a colon and a type.
    pub fn parse_param(tokens: &Vec<Token>, pos: usize) -> (r: Result<
        ((YaslIdent, YaslType), usize),
        ParseError,
    >)
        requires
            tokens_wf(tokens_view(tokens@)),
        ensures
            param_result(r) == grammar::parse_param(tokens_view(tokens@), pos as int),
            advances(r, pos, tokens.len()),
            r matches Ok((t, _)) ==> t.0@.wf(),
    {
        proof {
            reveal(grammar::parse_param);
        }
        let (ident, p) = match YaslIdent::parse_name(tokens, pos) {
            Err(e) => {
                return Err(e);
            },
            Ok(found) => found,
        };
        if !is_kind(tokens, p, TokenKind::Colon) {
            return Err(unexpected(tokens, p));
        }
        match YaslType::parse(tokens, p + 1) {
            Err(e) => Err(e),
            Ok((ty, q)) => Ok(((ident, ty), q)),
        }
    }

    /// Reads the parameters of a function, after its opening parenthesis
    /// and up to the closing one.
    #[verifier::loop_isolation(false)]
    pub fn parse_params(tokens: &Vec<Token>, pos: usize) -> (r: Result<
        (Vec<(YaslIdent, YaslType)>, usize),
        ParseError,
    >)
        requires
            tokens_wf(tokens_view(tokens@)),
        ensures
            params_result(r) == grammar::parse_params(tokens_view(tokens@), pos as int),
            advances(r, pos, tokens.len()),
            r matches Ok((v, _)) ==> params_wf(params_view(v@)),
    {
        let ghost toks = tokens_view(tokens@);
        let mut params: Vec<(YaslIdent, YaslType)> = Vec::new();
        let mut p: usize = pos;
        assert(params_view(params@) =~= Seq::<(Identifier, YaslType)>::empty());
        loop
            invariant
                pos <= p,
                p == pos || p <= tokens.len(),
                grammar::parse_params(toks, pos as int) == prepend(
                    params_view(params@),
                    grammar::parse_params(toks, p as int),
                ),
                params_wf(params_view(params@)),
            decreases tokens.len() - p,
        {
            if is_kind(tokens, p, TokenKind::RParen) {
                assert(params_view(params@) + Seq::<(Identifier, YaslType)>::empty()
                    =~= params_view(params@));
                return Ok((params, p + 1));
            }
            match YaslItemFn::parse_param(tokens, p) {
                Err(e) => {
                    return Err(e);
                },
                Ok((param, q)) => {
                    let ghost before = params_view(params@);
                    let ghost pv = (param.0@, param.1);
                    if is_kind(tokens, q, TokenKind::Comma) {
                        params.push(param);
                        proof {
                            assert(params_view(params@) =~= before + seq![pv]);
                            if let Ok((rest, _)) = grammar::parse_params(toks, q + 1) {
                                assert((before + seq![pv]) + rest =~= before + (seq![pv] + rest));
                            }
                        }
                        p = q + 1;
                    } else if is_kind(tokens, q, TokenKind::RParen) {
                        params.push(param);
                        proof {
                            assert(params_view(params@) =~= before + seq![pv]);
                        }
                        return Ok((params, q + 1));
                    } else {
                        return Err(unexpected(tokens, q));
                    }
                },
            }
        }
    }

    /// Reads the head of a function, from `fn` up to its body: the name,
    /// the parameters, and the return type, which is `Void` where none is
    /// written. Generics are an unsupported construct.
    pub fn parse_signature(tokens: &Vec<Token>, pos: usize) -> (r: Result<
        ((YaslIdent, Vec<(YaslIdent, YaslType)>, YaslType), usize),
        ParseError,
    >)
        requires
            tokens_wf(tokens_view(tokens@)),
        ensures
            signature_result(r) == grammar::parse_signature(tokens_view(tokens@), pos as int),
            advances(r, pos, tokens.len()),
            r matches Ok((t, _)) ==> t.0@.wf() && params_wf(params_view(t.1@)),
    {
        proof {
            reveal(grammar::parse_signature);
        }
        if !is_kind(tokens, pos, TokenKind::Keyword(Keyword::Fn)) {
            return Err(unexpected(tokens, pos));
        }
        let (ident, p) = match YaslIdent::parse_name(tokens, pos + 1) {
            Err(e) => {
                return Err(e);
            },
            Ok(found) => found,
        };
        if is_kind(tokens, p, TokenKind::Op(BinOp::Lt)) {
            return Err(unsupported(tokens, p));
        }
        if !is_kind(tokens, p, TokenKind::LParen) {
            return Err(unexpected(tokens, p));
        }
        let (args, q) = match YaslItemFn::parse_params(tokens, p + 1) {
            Err(e) => {
                return Err(e);
            },
            Ok(found) => found,
        };
        if is_kind(tokens, q, TokenKind::Arrow) {
            match YaslType::parse(tokens, q + 1) {
                Err(e) => Err(e),
                Ok((output, r)) => Ok(((ident, args, output), r)),
            }
        } else {
            Ok(((ident, args, YaslType::Void), q))
        }
    }

    /// Reads a function at `pos`, from `fn` to the end of its body.
    pub fn parse(tokens: &Vec<Token>, pos: usize) -> (r: Result<(YaslItem, usize), ParseError>)
        requires
            tokens_wf(tokens_view(tokens@)),
        ensures
            item_result(r) == grammar::parse_fn(tokens_view(tokens@), pos as int),
            advances(r, pos, tokens.len()),
            r matches Ok((i, _)) ==> i@.wf(),
        decreases tokens.len() - pos, 2int,
    {
        match YaslItemFn::parse_signature(tokens, pos) {
            Err(e) => Err(e),
            Ok(((ident, args, output), p)) => {
                match YaslBlock::parse(tokens, p) {
                    Err(e) => Err(e),
                    Ok((block, q)) => Ok(
                        (YaslItem::Fn(YaslItemFn { ident, args, output, block }), q),
                    ),
                }
            },
        }
    }
}

impl YaslItem {
    /// Reads an item that may stand among statements: a constant or a
    /// function. A visibility or a qualifier before it, and any other item
    /// of the host language, is an unsupported construct.
    pub fn parse(tokens: &Vec<Token>, pos: usize) -> (r: Result<(YaslItem, usize), ParseError>)
        requires
            tokens_wf(tokens_view(tokens@)),
        ensures
            item_result(r) == grammar::parse_item(tokens_view(tokens@), pos as int),
            advances(r, pos, tokens.len()),
            r matches Ok((i, _)) ==> i@.wf(),
        decreases tokens.len() - pos, 3int,
    {
        match peek(tokens, pos) {
            Some(TokenKind::Keyword(Keyword::Static)) => YaslItemStatic::parse(tokens, pos),
            Some(TokenKind::Keyword(Keyword::Fn)) => YaslItemFn::parse(tokens, pos),
            _ => Err(unexpected(tokens, pos)),
        }
    }

    /// Reads an item of the module: an interface slot, a constant or a
    /// function.
    pub fn parse_top(tokens: &Vec<Token>, pos: usize) -> (r: Result<(YaslItem, usize), ParseError>)
        requires
            tokens_wf(tokens_view(tokens@)),
        ensures
            item_result(r) == grammar::parse_top_item(tokens_view(tokens@), pos as int),
            advances(r, pos, tokens.len()),
            r matches Ok((i, _)) ==> i@.wf(),
    {
        if is_word(tokens, pos, "layout") {
            YaslItemLayout::parse(tokens, pos)
        } else {
            YaslItem::parse(tokens, pos)
        }
    }
}

impl YaslBlock {
    /// Reads a block at `pos`, from its opening brace to the closing one.
    #[verifier::loop_isolation(false)]
    pub fn parse(tokens: &Vec<Token>, pos: usize) -> (r: Result<(YaslBlock, usize), ParseError>)
        requires
            tokens_wf(tokens_view(tokens@)),
        ensures
            block_result(r) == grammar::parse_block(tokens_view(tokens@), pos as int),
            advances(r, pos, tokens.len()),
            r matches Ok((b, _)) ==> b@.wf(),
        decreases tokens.len() - pos, 1int,
    {
        if !is_kind(tokens, pos, TokenKind::LBrace) {
            return Err(unexpected(tokens, pos));
        }
        let ghost toks = tokens_view(tokens@);
        let mut stmts: Vec<YaslStmt> = Vec::new();
        let mut p: usize = pos + 1;
        assert(stmts_view(stmts@) =~= Seq::<Statement>::empty());
        loop
            invariant
                pos < p <= tokens.len(),
                grammar::parse_stmts(toks, pos + 1) == prepend(
                    stmts_view(stmts@),
                    grammar::parse_stmts(toks, p as int),
                ),
                forall|i: int| 0 <= i < stmts@.len() ==> (#[trigger] stmts_view(stmts@)[i]).wf(),
            decreases tokens.len() - p,
        {
            if is_kind(tokens, p, TokenKind::RBrace) {
                assert(stmts_view(stmts@) + Seq::<Statement>::empty() =~= stmts_view(stmts@));
                return Ok((YaslBlock { span: tokens[pos].span, stmts }, p + 1));
            }
            match YaslStmt::parse(tokens, p) {
                Err(e) => {
                    return Err(e);
                },
                Ok((stmt, q)) => {
                    let ghost before = stmts@;
                    let ghost sv = stmt@;
                    stmts.push(stmt);
                    proof {
                        lemma_stmts_view_push(before, stmt);
                        assert(stmts_view(before).push(sv) =~= stmts_view(before) + seq![sv]);
                        if let Ok((rest, _)) = grammar::parse_stmts(toks, q as int) {
                            assert((stmts_view(before) + seq![sv]) + rest =~= stmts_view(before) + (
                            seq![sv] + rest));
                        }
                    }
                    p = q;
                },
            }
        }
    }
}

impl YaslStmt {
    /// Reads a statement at `pos`, with its semicolon: a `let`, an item, or
    /// a statement expression. After a conditional or a block the
    /// semicolon may be left out. A value at the end of a block without a
    /// semicolon, and an assignment used as a value, are unsupported
    /// constructs.
    pub fn parse(tokens: &Vec<Token>, pos: usize) -> (r: Result<(YaslStmt, usize), ParseError>)
        requires
            tokens_wf(tokens_view(tokens@)),
        ensures
            stmt_result(r) == grammar::parse_stmt(tokens_view(tokens@), pos as int),
            advances(r, pos, tokens.len()),
            r matches Ok((s, _)) ==> s@.wf(),
        decreases tokens.len() - pos, 4int,
    {
        match peek(tokens, pos) {
            Some(TokenKind::Keyword(Keyword::Let)) => {
                match YaslLocal::parse(tokens, pos) {
                    Err(e) => Err(e),
                    Ok((local, p)) => {
                        if is_kind(tokens, p, TokenKind::Semi) {
                            Ok((YaslStmt::Local(local), p + 1))
                        } else if local.init.is_some() {
                            Err(unexpected_after_value(tokens, p))
                        } else {
                            Err(unexpected(tokens, p))
                        }
                    },
                }
            },
            Some(TokenKind::Keyword(Keyword::Static)) | Some(TokenKind::Keyword(Keyword::Fn))
            | Some(TokenKind::Keyword(Keyword::Pub)) | Some(TokenKind::Keyword(Keyword::Const))
            | Some(TokenKind::Keyword(Keyword::Async)) | Some(
                TokenKind::Keyword(Keyword::Unsafe),
            ) | Some(TokenKind::Keyword(Keyword::Extern)) => {
                match YaslItem::parse(tokens, pos) {
                    Err(e) => Err(e),
                    Ok((item, p)) => Ok((YaslStmt::Item(item), p)),
                }
            },
            _ => {
                match YaslExprFunctionScope::parse(tokens, pos) {
                    Err(e) => Err(e),
                    Ok((e, p)) => {
                        if is_kind(tokens, p, TokenKind::Semi) {
                            Ok((YaslStmt::Expr(e), p + 1))
                        } else if e.is_block_like() {
                            Ok((YaslStmt::Expr(e), p))
                        } else {
                            Err(unexpected_after_value(tokens, p))
                        }
                    },
                }
            },
        }
    }
}

impl YaslExprFunctionScope {
    /// Whether the statement expression is a conditional or a block.
    pub fn is_block_like(&self) -> (b: bool)
        ensures
            b == grammar::is_block_like(self@),
    {
        match self {
            YaslExprFunctionScope::If(_) => true,
            YaslExprFunctionScope::Block(_) => true,
            _ => false,
        }
    }

    /// Makes a statement of the value expression `left`, which stands from
    /// `start` up to `pos`: an assignment where `=` or a compound operator
    /// follows, for which `left` has to be a name; else the value itself.
    pub fn parse_assignment(tokens: &Vec<Token>, start: usize, pos: usize, left: YaslExprLineScope)
        -> (r: Result<(YaslExprFunctionScope, usize), ParseError>)
        requires
            tokens_wf(tokens_view(tokens@)),
            left@.wf(),
        ensures
            stmt_expr_result(r) == grammar::parse_assignment(
                tokens_view(tokens@),
                start as int,
                pos as int,
                left@,
            ),
            r matches Ok((_, p)) ==> pos <= p && (pos <= tokens.len() ==> p <= tokens.len()),
            r matches Ok((e, _)) ==> e@.wf(),
    {
        proof {
            reveal(grammar::parse_assignment);
        }
        let compound = match peek(tokens, pos) {
            Some(TokenKind::Op(op)) => if op.compound() {
                Some(op)
            } else {
                None
            },
            _ => None,
        };
        if is_kind(tokens, pos, TokenKind::Assign) || compound.is_some() {
            match left {
                YaslExprLineScope::Ident(ident) => {
                    match YaslExprLineScope::parse(tokens, pos + 1) {
                        Err(e) => Err(e),
                        Ok((right, p)) => match compound {
                            Some(op) => Ok(
                                (
                                    YaslExprFunctionScope::AssignOp(
                                        YaslExprAssignOp { left: ident, op, right },
                                    ),
                                    p,
                                ),
                            ),
                            None => Ok(
                                (
                                    YaslExprFunctionScope::Assign(
                                        YaslExprAssign { left: ident, right },
                                    ),
                                    p,
                                ),
                            ),
                        },
                    }
                },
                _ => Err(unsupported(tokens, start)),
            }
        } else {
            match left {
                YaslExprLineScope::Call(c) => Ok((YaslExprFunctionScope::Call(c), pos)),
                other => Ok((YaslExprFunctionScope::Value(other), pos)),
            }
        }
    }

    /// Reads a statement expression at `pos`: a return, a conditional, a
    /// block, an assignment, or a value expression.
    pub fn parse(tokens: &Vec<Token>, pos: usize) -> (r: Result<
        (YaslExprFunctionScope, usize),
        ParseError,
    >)
        requires
            tokens_wf(tokens_view(tokens@)),
        ensures
            stmt_expr_result(r) == grammar::parse_stmt_expr(tokens_view(tokens@), pos as int),
            advances(r, pos, tokens.len()),
            r matches Ok((e, _)) ==> e@.wf(),
        decreases tokens.len() - pos, 3int,
    {
        match peek(tokens, pos) {
            Some(TokenKind::Keyword(Keyword::Return)) => {
                let ends = match peek(tokens, pos + 1) {
                    Some(TokenKind::Semi) | Some(TokenKind::RBrace) | None => true,
                    _ => false,
                };
                if ends {
                    Ok(
                        (
                            YaslExprFunctionScope::Return(
                                YaslExprReturn { span: tokens[pos].span, expr: None },
                            ),
                            pos + 1,
                        ),
                    )
                } else {
                    match YaslExprLineScope::parse(tokens, pos + 1) {
                        Err(e) => Err(e),
                        Ok((e, p)) => Ok(
                            (
                                YaslExprFunctionScope::Return(
                                    YaslExprReturn { span: tokens[pos].span, expr: Some(e) },
                                ),
                                p,
                            ),
                        ),
                    }
                }
            },
            Some(TokenKind::Keyword(Keyword::If)) => YaslExprIf::parse(tokens, pos),
            Some(TokenKind::LBrace) => {
                match YaslBlock::parse(tokens, pos) {
                    Err(e) => Err(e),
                    Ok((b, p)) => Ok((YaslExprFunctionScope::Block(b), p)),
                }
            },
            _ => {
                match YaslExprLineScope::parse(tokens, pos) {
                    Err(e) => Err(e),
                    Ok((e, p)) => YaslExprFunctionScope::parse_assignment(tokens, pos, p, e),
                }
            },
        }
    }
}

impl YaslExprIf {
    /// Reads a conditional at `pos`: `if`, the condition, a block, and
    /// where `else` follows, a statement expression.
    pub fn parse(tokens: &Vec<Token>, pos: usize) -> (r: Result<
        (YaslExprFunctionScope, usize),
        ParseError,
    >)
        requires
            tokens_wf(tokens_view(tokens@)),
        ensures
            stmt_expr_result(r) == grammar::parse_if(tokens_view(tokens@), pos as int),
            advances(r, pos, tokens.len()),
            r matches Ok((e, _)) ==> e@.wf(),
        decreases tokens.len() - pos, 2int,
    {
        if !is_kind(tokens, pos, TokenKind::Keyword(Keyword::If)) {
            return Err(unexpected(tokens, pos));
        }
        let (cond, p) = match YaslExprLineScope::parse(tokens, pos + 1) {
            Err(e) => {
                return Err(e);
            },
            Ok(found) => found,
        };
        if !is_kind(tokens, p, TokenKind::LBrace) {
            return Err(unexpected_after_value(tokens, p));
        }
        let (then_branch, q) = match YaslBlock::parse(tokens, p) {
            Err(e) => {
                return Err(e);
            },
            Ok(found) => found,
        };
        if is_kind(tokens, q, TokenKind::Keyword(Keyword::Else)) {
            match YaslExprFunctionScope::parse(tokens, q + 1) {
                Err(e) => Err(e),
                Ok((e, r)) => Ok(
                    (
                        YaslExprFunctionScope::If(
                            YaslExprIf {
                                span: tokens[pos].span,
                                cond,
                                then_branch,
                                else_branch: Some((tokens[q].span, Box::new(e))),
                            },
                        ),
                        r,
                    ),
                ),
            }
        } else {
            Ok(
                (
                    YaslExprFunctionScope::If(
                        YaslExprIf { span: tokens[pos].span, cond, then_branch, else_branch: None },
                    ),
                    q,
                ),
            )
        }
    }
}

impl YaslFile {
    /// Reads a module: the items that the tokens spell, to the last token.
    ///
    /// The result is the module that the grammar gives for these tokens,
    /// or the grammar's error: the first token that fits no rule fails the
    /// parse.
    #[verifier::loop_isolation(false)]
    pub fn parse(tokens: &Vec<Token>) -> (r: Result<YaslFile, ParseError>)
        requires
            tokens_wf(tokens_view(tokens@)),
        ensures
            match grammar::parse_module(tokens_view(tokens@)) {
                Ok(m) => r matches Ok(f) && f@ == m,
                Err(e) => r matches Err(x) && x == e,
            },
            r matches Ok(f) ==> f@.wf(),
    {
        let ghost toks = tokens_view(tokens@);
        let mut items: Vec<YaslItem> = Vec::new();
        let mut p: usize = 0;
        assert(items_view(items@) =~= Seq::<Item>::empty());
        while p < tokens.len()
            invariant
                0 <= p <= tokens.len(),
                grammar::parse_items(toks, 0) == prepend_items(
                    items_view(items@),
                    grammar::parse_items(toks, p as int),
                ),
                forall|i: int| 0 <= i < items@.len() ==> (#[trigger] items_view(items@)[i]).wf(),
            decreases tokens.len() - p,
        {
            match YaslItem::parse_top(tokens, p) {
                Err(e) => {
                    return Err(e);
                },
                Ok((item, q)) => {
                    let ghost before = items@;
                    let ghost iv = item@;
                    items.push(item);
                    proof {
                        lemma_items_view_push(before, item);
                        assert(items_view(before).push(iv) =~= items_view(before) + seq![iv]);
                        if let Ok(rest) = grammar::parse_items(toks, q as int) {
                            assert((items_view(before) + seq![iv]) + rest =~= items_view(before) + (
                            seq![iv] + rest));
                        }
                    }
                    p = q;
                },
            }
        }
        assert(items_view(items@) + Seq::<Item>::empty() =~= items_view(items@));
        Ok(YaslFile { items })
    }
}

} // verus!
