//! Value expressions: what may stand where a value is wanted.

use vstd::prelude::*;
use vstd::string::*;
use crate::span::Span;
use crate::text::is_line_text;
use crate::token::{BinOp, UnOp};
use crate::yasl_block::{Block, YaslBlock};
use crate::yasl_ident::{Identifier, YaslIdent};
use crate::yasl_type::{YaslScalarType, YaslType};

verus! {

/// The kinds of literal.
#[derive(Clone, Copy, Debug, PartialEq, Eq, Structural)]
pub enum LitKind {
    Int,
    Float,
    Bool,
}

impl LitKind {
    /// The type of a literal of this kind.
    pub open spec fn literal_type(self) -> YaslType {
        match self {
            LitKind::Int => YaslType::ScalarType(YaslScalarType::Int),
            LitKind::Float => YaslType::ScalarType(YaslScalarType::Float32),
            LitKind::Bool => YaslType::ScalarType(YaslScalarType::Bool),
        }
    }

    /// The type of a literal of this kind.
    pub fn type_of(&self) -> (t: YaslType)
        ensures
            t == self.literal_type(),
    {
        match self {
            LitKind::Int => YaslType::ScalarType(YaslScalarType::Int),
            LitKind::Float => YaslType::ScalarType(YaslScalarType::Float32),
            LitKind::Bool => YaslType::ScalarType(YaslScalarType::Bool),
        }
    }
}

/// A value expression as the specifications see it.
#[allow(inconsistent_fields)]
pub enum ValueExpr {
    Lit { kind: LitKind, text: Seq<char>, span: Span },
    Binary { left: Box<ValueExpr>, op: BinOp, right: Box<ValueExpr> },
    Call { ident: Identifier, args: Seq<ValueExpr> },
    Cast { expr: Box<ValueExpr>, ty: YaslType },
    Ident(Identifier),
    Unary { op: UnOp, expr: Box<ValueExpr>, span: Span },
    Field { base: Box<ValueExpr>, member: Seq<char>, span: Span },
}

impl ValueExpr {
    /// The source region that stands for the expression: that of its first
    /// operand, of the callee, of the unary operator, of the member.
    pub open spec fn span(self) -> Span
        decreases self,
    {
        match self {
            ValueExpr::Lit { span, .. } => span,
            ValueExpr::Binary { left, .. } => left.span(),
            ValueExpr::Call { ident, .. } => ident.span,
            ValueExpr::Cast { expr, .. } => expr.span(),
            ValueExpr::Ident(i) => i.span,
            ValueExpr::Unary { span, .. } => span,
            ValueExpr::Field { span, .. } => span,
        }
    }

    /// No name and no literal of the expression holds a line feed.
    pub open spec fn wf(self) -> bool
        decreases self,
    {
        match self {
            ValueExpr::Lit { text, .. } => is_line_text(text),
            ValueExpr::Binary { left, right, .. } => left.wf() && right.wf(),
            ValueExpr::Call { ident, args } => ident.wf() && forall|i: int|
                0 <= i < args.len() ==> (#[trigger] args[i]).wf(),
            ValueExpr::Cast { expr, .. } => expr.wf(),
            ValueExpr::Ident(i) => i.wf(),
            ValueExpr::Unary { expr, .. } => expr.wf(),
            ValueExpr::Field { base, member, .. } => base.wf() && is_line_text(member),
        }
    }

    /// The type that the expression carries: that of a literal's kind, of
    /// the left operand of a binary operation, the target of a
    /// conversion, the resolved type of a name or of a callee. A unary
    /// operation and a member access carry none.
    pub open spec fn attached_type(self) -> Option<YaslType>
        decreases self,
    {
        match self {
            ValueExpr::Lit { kind, .. } => Some(kind.literal_type()),
            ValueExpr::Binary { left, .. } => left.attached_type(),
            ValueExpr::Call { ident, .. } => ident.resolved_type,
            ValueExpr::Cast { ty, .. } => Some(ty),
            ValueExpr::Ident(i) => i.resolved_type,
            ValueExpr::Unary { .. } => None,
            ValueExpr::Field { .. } => None,
        }
    }

    /// No name and no callee of the expression has a resolved type yet.
    pub open spec fn is_unresolved(self) -> bool
        decreases self,
    {
        match self {
            ValueExpr::Lit { .. } => true,
            ValueExpr::Binary { left, right, .. } => left.is_unresolved() && right.is_unresolved(),
            ValueExpr::Call { ident, args } => ident.resolved_type is None && forall|i: int|
                0 <= i < args.len() ==> (#[trigger] args[i]).is_unresolved(),
            ValueExpr::Cast { expr, .. } => expr.is_unresolved(),
            ValueExpr::Ident(i) => i.resolved_type is None,
            ValueExpr::Unary { expr, .. } => expr.is_unresolved(),
            ValueExpr::Field { base, .. } => base.is_unresolved(),
        }
    }
}

/// A literal.
#[derive(Debug)]
pub struct YaslExprLit {
    pub kind: LitKind,
    pub text: String,
    pub span: Span,
}

/// Two operands and the operator between them.
#[derive(Debug)]
pub struct YaslExprBinary {
    pub left: Box<YaslExprLineScope>,
    pub op: BinOp,
    pub right: Box<YaslExprLineScope>,
}

/// A call.
#[derive(Debug)]
pub struct YaslExprCall {
    pub ident: YaslIdent,
    pub args: Vec<YaslExprLineScope>,
}

/// A conversion to a type.
#[derive(Debug)]
pub struct YaslExprCast {
    pub expr: Box<YaslExprLineScope>,
    pub ty: YaslType,
}

/// An operator before its operand.
#[derive(Debug)]
pub struct YaslExprUnary {
    pub op: UnOp,
    pub expr: Box<YaslExprLineScope>,
    pub span: Span,
}

/// A member of a value.
#[derive(Debug)]
pub struct YaslExprField {
    pub base: Box<YaslExprLineScope>,
    pub member: String,
    pub span: Span,
}

/// A value expression, as in `let a = 5 + call();`.
#[derive(Debug)]
pub enum YaslExprLineScope {
    Lit(YaslExprLit),
    Binary(YaslExprBinary),
    Call(YaslExprCall),
    Cast(YaslExprCast),
    Ident(YaslIdent),
    Unary(YaslExprUnary),
    Field(YaslExprField),
}

/// The value expressions that a vector of them stands for.
pub open spec fn exprs_view(v: Seq<YaslExprLineScope>) -> Seq<ValueExpr>
    decreases v,
{
    Seq::new(
        v.len(),
        |i: int|
            if 0 <= i < v.len() {
                v[i].view()
            } else {
                ValueExpr::Ident(arbitrary())
            },
    )
}

impl YaslExprLit {
    pub open spec fn view(&self) -> ValueExpr {
        ValueExpr::Lit { kind: self.kind, text: self.text@, span: self.span }
    }

    /// The type of the literal.
    pub fn get_type(&self) -> (t: Option<YaslType>)
        ensures
            t == self@.attached_type(),
    {
        Some(self.kind.type_of())
    }
}

impl YaslExprBinary {
    pub open spec fn view(&self) -> ValueExpr
        decreases self,
    {
        ValueExpr::Binary {
            left: Box::new(self.left.view()),
            op: self.op,
            right: Box::new(self.right.view()),
        }
    }

    /// The type of the left operand.
    pub fn get_type(&self) -> (t: Option<YaslType>)
        ensures
            t == self@.attached_type(),
        decreases self,
    {
        self.left.get_type()
    }
}

impl YaslExprCall {
    pub open spec fn view(&self) -> ValueExpr
        decreases self,
    {
        ValueExpr::Call { ident: self.ident@, args: exprs_view(self.args@) }
    }

    /// Where the callee stands in the source.
    pub fn span(&self) -> (s: Span)
        ensures
            s == self@.span(),
    {
        self.ident.span()
    }

    /// The resolved type of the callee.
    pub fn get_type(&self) -> (t: Option<YaslType>)
        ensures
            t == self@.attached_type(),
    {
        self.ident.get_type()
    }
}

impl YaslExprCast {
    pub open spec fn view(&self) -> ValueExpr
        decreases self,
    {
        ValueExpr::Cast { expr: Box::new(self.expr.view()), ty: self.ty }
    }

    /// The target of the conversion.
    pub fn get_type(&self) -> (t: Option<YaslType>)
        ensures
            t == self@.attached_type(),
    {
        Some(self.ty)
    }
}

impl YaslExprUnary {
    pub open spec fn view(&self) -> ValueExpr
        decreases self,
    {
        ValueExpr::Unary { op: self.op, expr: Box::new(self.expr.view()), span: self.span }
    }

    /// Where the operator stands in the source.
    pub fn span(&self) -> (s: Span)
        ensures
            s == self@.span(),
    {
        self.span
    }
}

impl YaslExprField {
    pub open spec fn view(&self) -> ValueExpr
        decreases self,
    {
        ValueExpr::Field {
            base: Box::new(self.base.view()),
            member: self.member@,
            span: self.span,
        }
    }

    /// Where the member stands in the source.
    pub fn span(&self) -> (s: Span)
        ensures
            s == self@.span(),
    {
        self.span
    }
}

impl YaslExprLineScope {
    pub open spec fn view(&self) -> ValueExpr
        decreases self,
    {
        match self {
            YaslExprLineScope::Lit(l) => l.view(),
            YaslExprLineScope::Binary(b) => b.view(),
            YaslExprLineScope::Call(c) => c.view(),
            YaslExprLineScope::Cast(c) => c.view(),
            YaslExprLineScope::Ident(i) => ValueExpr::Ident(i.view()),
            YaslExprLineScope::Unary(u) => u.view(),
            YaslExprLineScope::Field(f) => f.view(),
        }
    }

    /// The source region that stands for the expression.
    pub fn span(&self) -> (s: Span)
        ensures
            s == self@.span(),
        decreases self,
    {
        match self {
            YaslExprLineScope::Lit(l) => l.span,
            YaslExprLineScope::Binary(b) => b.left.span(),
            YaslExprLineScope::Call(c) => c.span(),
            YaslExprLineScope::Cast(c) => c.expr.span(),
            YaslExprLineScope::Ident(i) => i.span(),
            YaslExprLineScope::Unary(u) => u.span(),
            YaslExprLineScope::Field(f) => f.span(),
        }
    }

    /// The type that the expression carries: that of a literal's kind, of
    /// the left operand of a binary operation, the target of a
    /// conversion, the resolved type of a name or of a callee; `None` for
    /// a unary operation, a member access, and a name or callee that is
    /// not resolved.
    pub fn get_type(&self) -> (t: Option<YaslType>)
        ensures
            t == self@.attached_type(),
        decreases self,
    {
        match self {
            YaslExprLineScope::Lit(l) => l.get_type(),
            YaslExprLineScope::Binary(b) => b.get_type(),
            YaslExprLineScope::Call(c) => c.get_type(),
            YaslExprLineScope::Cast(c) => c.get_type(),
            YaslExprLineScope::Ident(i) => i.get_type(),
            YaslExprLineScope::Unary(_) => None,
            YaslExprLineScope::Field(_) => None,
        }
    }
}

/// A statement expression as the specifications see it: what may stand
/// as a statement of its own.
#[allow(inconsistent_fields)]
pub enum StmtExpr {
    /// A value expression in the place of a statement.
    Value(ValueExpr),
    Assign { left: Identifier, right: ValueExpr },
    AssignOp { left: Identifier, op: BinOp, right: ValueExpr },
    Return { span: Span, expr: Option<ValueExpr> },
    If {
        span: Span,
        cond: ValueExpr,
        then_branch: Block,
        else_branch: Option<(Span, Box<StmtExpr>)>,
    },
    Block(Block),
}

impl StmtExpr {
    /// No name and no literal of the statement holds a line feed.
    pub open spec fn wf(self) -> bool
        decreases self,
    {
        match self {
            StmtExpr::Value(e) => e.wf(),
            StmtExpr::Assign { left, right } => left.wf() && right.wf(),
            StmtExpr::AssignOp { left, right, .. } => left.wf() && right.wf(),
            StmtExpr::Return { expr, .. } => match expr {
                Some(e) => e.wf(),
                None => true,
            },
            StmtExpr::If { cond, then_branch, else_branch, .. } => cond.wf() && then_branch.wf()
                && match else_branch {
                Some((_, e)) => e.wf(),
                None => true,
            },
            StmtExpr::Block(b) => b.wf(),
        }
    }
}

/// An assignment.
#[derive(Debug)]
pub struct YaslExprAssign {
    pub left: YaslIdent,
    pub right: YaslExprLineScope,
}

/// An assignment through an operator, as in `a += 1`.
#[derive(Debug)]
pub struct YaslExprAssignOp {
    pub left: YaslIdent,
    pub op: BinOp,
    pub right: YaslExprLineScope,
}

/// A return, with or without a value.
#[derive(Debug)]
pub struct YaslExprReturn {
    pub span: Span,
    pub expr: Option<YaslExprLineScope>,
}

/// A conditional. `span` is the place of `if`; the else branch comes with
/// the place of `else`.
#[derive(Debug)]
pub struct YaslExprIf {
    pub span: Span,
    pub cond: YaslExprLineScope,
    pub then_branch: YaslBlock,
    pub else_branch: Option<(Span, Box<YaslExprFunctionScope>)>,
}

/// A statement expression, as it stands in the body of a function.
#[derive(Debug)]
pub enum YaslExprFunctionScope {
    Call(YaslExprCall),
    Assign(YaslExprAssign),
    AssignOp(YaslExprAssignOp),
    Return(YaslExprReturn),
    If(YaslExprIf),
    Block(YaslBlock),
    /// A value expression other than a call in the place of a statement.
    Value(YaslExprLineScope),
}

impl YaslExprAssign {
    pub open spec fn view(&self) -> StmtExpr {
        StmtExpr::Assign { left: self.left@, right: self.right@ }
    }

    /// Where the assigned name stands in the source.
    pub fn span(&self) -> (s: Span)
        ensures
            s == self.left@.span,
    {
        self.left.span()
    }
}

impl YaslExprAssignOp {
    pub open spec fn view(&self) -> StmtExpr {
        StmtExpr::AssignOp { left: self.left@, op: self.op, right: self.right@ }
    }

    /// Where the assigned name stands in the source.
    pub fn span(&self) -> (s: Span)
        ensures
            s == self.left@.span,
    {
        self.left.span()
    }
}

impl YaslExprReturn {
    pub open spec fn view(&self) -> StmtExpr {
        StmtExpr::Return {
            span: self.span,
            expr: match self.expr {
                Some(e) => Some(e@),
                None => None,
            },
        }
    }

    /// Where `return` stands in the source.
    pub fn span(&self) -> (s: Span)
        ensures
            s == self.span,
    {
        self.span
    }
}

impl YaslExprIf {
    pub open spec fn view(&self) -> StmtExpr
        decreases self,
    {
        StmtExpr::If {
            span: self.span,
            cond: self.cond@,
            then_branch: self.then_branch.view(),
            else_branch: match self.else_branch {
                Some((s, e)) => Some((s, Box::new(e.view()))),
                None => None,
            },
        }
    }

    /// Where `if` stands in the source.
    pub fn span(&self) -> (s: Span)
        ensures
            s == self.span,
    {
        self.span
    }
}

impl YaslExprFunctionScope {
    pub open spec fn view(&self) -> StmtExpr
        decreases self,
    {
        match self {
            YaslExprFunctionScope::Call(c) => StmtExpr::Value(c@),
            YaslExprFunctionScope::Assign(a) => a@,
            YaslExprFunctionScope::AssignOp(a) => a@,
            YaslExprFunctionScope::Return(r) => r@,
            YaslExprFunctionScope::If(i) => i.view(),
            YaslExprFunctionScope::Block(b) => StmtExpr::Block(b.view()),
            YaslExprFunctionScope::Value(e) => StmtExpr::Value(e@),
        }
    }
}

/// The view of a vector with one more expression is the view of the
/// vector with the view of the expression added.
pub proof fn lemma_exprs_view_push(v: Seq<YaslExprLineScope>, e: YaslExprLineScope)
    ensures
        exprs_view(v.push(e)) == exprs_view(v).push(e@),
{
    assert(exprs_view(v.push(e)) =~= exprs_view(v).push(e@));
}

} // verus!
