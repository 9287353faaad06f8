//! Statements.

use vstd::prelude::*;
use crate::yasl_expr::{StmtExpr, ValueExpr, YaslExprFunctionScope, YaslExprLineScope};
use crate::yasl_ident::{Identifier, YaslIdent};
use crate::yasl_item::{Item, YaslItem};
use crate::yasl_type::YaslType;

verus! {

/// A `let` as the specifications see it.
pub struct LocalBinding {
    pub ident: Identifier,
    /// The declared type, or the one that the resolver inferred.
    pub ty: Option<YaslType>,
    pub init: Option<ValueExpr>,
}

/// A statement as the specifications see it.
pub enum Statement {
    LocalBinding(LocalBinding),
    ExpressionStatement(StmtExpr),
    NestedItem(Item),
}

impl LocalBinding {
    /// No name and no literal of the binding holds a line feed.
    pub open spec fn wf(self) -> bool {
        self.ident.wf() && match self.init {
            Some(e) => e.wf(),
            None => true,
        }
    }
}

impl Statement {
    /// No name and no literal of the statement holds a line feed.
    pub open spec fn wf(self) -> bool
        decreases self,
    {
        match self {
            Statement::LocalBinding(l) => l.wf(),
            Statement::ExpressionStatement(e) => e.wf(),
            Statement::NestedItem(i) => i.wf(),
        }
    }
}

/// A `let`: a name, a type where one is declared or has been inferred,
/// and an initializer where one is given.
#[derive(Debug)]
pub struct YaslLocal {
    pub ident: YaslIdent,
    pub ty: Option<YaslType>,
    pub init: Option<YaslExprLineScope>,
}

/// A statement.
#[derive(Debug)]
pub enum YaslStmt {
    Item(YaslItem),
    Expr(YaslExprFunctionScope),
    Local(YaslLocal),
}

/// The statements that a vector of them stands for.
pub open spec fn stmts_view(v: Seq<YaslStmt>) -> Seq<Statement>
    decreases v,
{
    Seq::new(
        v.len(),
        |i: int|
            if 0 <= i < v.len() {
                v[i].view()
            } else {
                Statement::LocalBinding(arbitrary())
            },
    )
}

impl YaslLocal {
    pub open spec fn view(&self) -> LocalBinding {
        LocalBinding {
            ident: self.ident@,
            ty: self.ty,
            init: match self.init {
                Some(e) => Some(e@),
                None => None,
            },
        }
    }

    /// The declared or inferred type.
    pub fn get_type(&self) -> (t: Option<YaslType>)
        ensures
            t == self@.ty,
    {
        self.ty
    }
}

impl YaslStmt {
    pub open spec fn view(&self) -> Statement
        decreases self,
    {
        match self {
            YaslStmt::Item(i) => Statement::NestedItem(i.view()),
            YaslStmt::Expr(e) => Statement::ExpressionStatement(e.view()),
            YaslStmt::Local(l) => Statement::LocalBinding(l@),
        }
    }
}

/// The view of a vector with one more statement is the view of the vector
/// with the view of the statement added.
pub proof fn lemma_stmts_view_push(v: Seq<YaslStmt>, s: YaslStmt)
    ensures
        stmts_view(v.push(s)) == stmts_view(v).push(s@),
{
    assert(stmts_view(v.push(s)) =~= stmts_view(v).push(s@));
}

} // verus!
