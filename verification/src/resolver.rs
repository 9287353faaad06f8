//! The type resolver at work: the pass over the syntax tree, which it
//! annotates in place.

use vstd::prelude::*;
use vstd::string::*;
use crate::resolve::{
    TypeEnv, annotate, annotate_all, annotate_ident, bind, declared, env_before, global_env,
    infer_type, item_binding, resolve_block, resolve_item, resolve_local, resolve_module,
    resolve_stmt, resolve_stmt_expr,
};
use crate::yasl_block::YaslBlock;
use crate::yasl_expr::{YaslExprFunctionScope, YaslExprIf, YaslExprLineScope, exprs_view};
use crate::yasl_file::YaslFile;
use crate::yasl_ident::YaslIdent;
use crate::yasl_item::{Item, YaslItem, YaslItemFn, items_view};
use crate::yasl_stmt::{YaslLocal, YaslStmt, stmts_view};
use crate::yasl_type::YaslType;

verus! {

/// The identifiers `ids` are what adds the binding `b` to a mapping: none
/// where there is no binding, else one, with the name and the type of the
/// binding.
pub open spec fn spells_binding(ids: Seq<YaslIdent>, b: Option<(Seq<char>, YaslType)>) -> bool {
    match b {
        Some((name, ty)) => ids.len() == 1 && ids[0]@.full_name() == name && ids[0]@.resolved_type
            == Some(ty),
        None => ids.len() == 0,
    }
}

impl YaslIdent {
    /// Sets the resolved type to what the mapping holds for the name;
    /// leaves it where the mapping holds nothing.
    pub fn attempt_type_anotation(&mut self, idents: &TypeEnv)
        ensures
            final(self)@ == annotate_ident(old(self)@, idents@),
    {
        let name = self.to_string();
        if let Some(ty) = idents.get(name.as_str()) {
            self.set_type(ty);
        }
    }
}

impl YaslExprLineScope {
    /// Annotates every name and every callee of the expression with the
    /// type that the mapping holds for it.
    pub fn attempt_type_anotation(&mut self, idents: &TypeEnv)
        ensures
            final(self)@ == annotate(old(self)@, idents@),
        decreases *old(self),
    {
        match self {
            YaslExprLineScope::Lit(_) => {},
            YaslExprLineScope::Binary(b) => {
                b.left.attempt_type_anotation(idents);
                b.right.attempt_type_anotation(idents);
            },
            YaslExprLineScope::Call(c) => {
                c.ident.attempt_type_anotation(idents);
                let ghost args0 = c.args;
                let ghost ident1 = c.ident;
                let mut i: usize = 0;
                while i < c.args.len()
                    invariant
                        0 <= i <= c.args.len(),
                        c.ident == ident1,
                        c.args@.len() == args0@.len(),
                        *old(self) matches YaslExprLineScope::Call(c0) && c0.args == args0,
                        forall|j: int|
                            0 <= j < i ==> (#[trigger] c.args@[j])@ == annotate(
                                args0@[j]@,
                                idents@,
                            ),
                        forall|j: int| i <= j < c.args.len() ==> c.args@[j] == args0@[j],
                    decreases c.args.len() - i,
                {
                    proof {
                        assert(decreases_to!(args0 => args0[i as int]));
                        assert(args0[i as int] == c.args@[i as int]);
                    }
                    c.args[i].attempt_type_anotation(idents);
                    i = i + 1;
                }
                assert(exprs_view(c.args@) =~= annotate_all(exprs_view(args0@), idents@));
            },
            YaslExprLineScope::Cast(c) => {
                c.expr.attempt_type_anotation(idents);
            },
            YaslExprLineScope::Ident(i) => {
                i.attempt_type_anotation(idents);
            },
            YaslExprLineScope::Unary(u) => {
                u.expr.attempt_type_anotation(idents);
            },
            YaslExprLineScope::Field(f) => {
                f.base.attempt_type_anotation(idents);
            },
        }
    }

    /// The type of the expression under the mapping: that of its kind for
    /// a literal, of the left operand for a binary operation, the target
    /// for a conversion, what the mapping holds for a name and for the
    /// callee of a call; `Void` for what has no type.
    pub fn infer_type(&self, idents: &TypeEnv) -> (t: YaslType)
        ensures
            t == infer_type(self@, idents@),
        decreases self,
    {
        match self {
            YaslExprLineScope::Lit(l) => l.kind.type_of(),
            YaslExprLineScope::Binary(b) => b.left.infer_type(idents),
            YaslExprLineScope::Call(c) => {
                let name = c.ident.to_string();
                match idents.get(name.as_str()) {
                    Some(t) => t,
                    None => YaslType::Void,
                }
            },
            YaslExprLineScope::Cast(c) => c.ty,
            YaslExprLineScope::Ident(i) => {
                let name = i.to_string();
                match idents.get(name.as_str()) {
                    Some(t) => t,
                    None => YaslType::Void,
                }
            },
            YaslExprLineScope::Unary(_) => YaslType::Void,
            YaslExprLineScope::Field(_) => YaslType::Void,
        }
    }
}

impl YaslLocal {
    /// Resolves the binding. A declared type stands. Without one, the
    /// initializer is annotated and its type becomes the type of the
    /// binding; a binding with neither gets `Void`.
    pub fn attempt_type_anotation(&mut self, idents: &TypeEnv)
        ensures
            final(self)@ == resolve_local(old(self)@, idents@),
    {
        if self.ty.is_none() {
            match &mut self.init {
                Some(init) => {
                    let ty = init.infer_type(idents);
                    init.attempt_type_anotation(idents);
                    self.ty = Some(ty);
                },
                None => {
                    self.ty = Some(YaslType::Void);
                },
            }
        }
    }

    /// The name of the binding with its type, once it has one.
    pub fn get_ident(&self) -> (r: Option<YaslIdent>)
        ensures
            match self@.ty {
                Some(t) => r matches Some(i) && i@ == self@.ident.with_type(t),
                None => r is None,
            },
    {
        match self.ty {
            Some(ty) => {
                let mut ident = self.ident.clone();
                ident.set_type(ty);
                Some(ident)
            },
            None => None,
        }
    }
}

impl YaslItem {
    /// What the item adds to the mapping: a constant its name with its
    /// type, a function its name with its return type, an interface slot
    /// nothing.
    pub fn update_idents(&self) -> (r: Vec<YaslIdent>)
        ensures
            spells_binding(r@, item_binding(self@)),
    {
        let mut out: Vec<YaslIdent> = Vec::new();
        match self {
            YaslItem::Static(s) => {
                let mut ident = s.ident.clone();
                ident.set_type(s.ty);
                out.push(ident);
            },
            YaslItem::Fn(f) => {
                let mut ident = f.ident.clone();
                ident.set_type(f.output);
                out.push(ident);
            },
            YaslItem::Layout(_) => {},
        }
        out
    }

    /// Resolves the item under a mapping that holds the item itself: the
    /// body of a function is resolved.
    pub fn attempt_type_anotation(&mut self, idents: &TypeEnv)
        ensures
            final(self)@ == resolve_item(old(self)@, idents@),
        decreases *old(self), 0nat,
    {
        match self {
            YaslItem::Fn(f) => {
                f.attempt_type_anotation(idents);
            },
            _ => {},
        }
    }
}

impl YaslItemFn {
    /// Resolves the body of the function.
    pub fn attempt_type_anotation(&mut self, idents: &TypeEnv)
        ensures
            final(self)@ == resolve_item(old(self)@, idents@),
        decreases *old(self), 0nat,
    {
        self.block.attempt_type_anotation(idents);
    }
}

/// Adds to the mapping what the identifiers `ids` spell.
fn bind_all(idents: &mut TypeEnv, ids: &Vec<YaslIdent>, Ghost(b): Ghost<Option<(Seq<char>, YaslType)>>)
    requires
        spells_binding(ids@, b),
    ensures
        final(idents)@ == bind(old(idents)@, b),
{
    if ids.len() > 0 {
        let name = ids[0].to_string();
        match ids[0].get_type() {
            Some(ty) => {
                idents.insert(name, ty);
            },
            None => {},
        }
    }
}

impl YaslBlock {
    /// Resolves the block on a copy of the mapping: each statement under
    /// what the statements before it declared. Nothing that the block
    /// declares reaches the mapping of the caller.
    pub fn attempt_type_anotation(&mut self, global_idents: &TypeEnv)
        ensures
            final(self)@ == resolve_block(old(self)@, global_idents@),
        decreases *old(self), 0nat,
    {
        let mut idents = global_idents.clone();
        let ghost stmts0 = self.stmts;
        let ghost before = stmts_view(stmts0@);
        let ghost env = global_idents@;
        let mut i: usize = 0;
        while i < self.stmts.len()
            invariant
                0 <= i <= self.stmts.len(),
                self.stmts@.len() == stmts0@.len(),
                self.span == old(self).span,
                old(self).stmts == stmts0,
                before == stmts_view(stmts0@),
                env == global_idents@,
                idents@ == env_before(before, env, i as nat),
                forall|j: int|
                    0 <= j < i ==> (#[trigger] self.stmts@[j])@ == resolve_stmt(
                        before[j],
                        env_before(before, env, j as nat),
                    ),
                forall|j: int| i <= j < self.stmts.len() ==> self.stmts@[j] == stmts0@[j],
            decreases self.stmts.len() - i,
        {
            proof {
                assert(decreases_to!(stmts0 => stmts0[i as int]));
                assert(stmts0[i as int] == self.stmts@[i as int]);
                assert(before[i as int] == stmts0@[i as int]@);
            }
            self.stmts[i].attempt_type_anotation(&idents);
            let declared = self.stmts[i].update_idents();
            bind_all(&mut idents, &declared, Ghost(crate::resolve::declared(self.stmts@[i as int]@)));
            i = i + 1;
        }
        assert(stmts_view(self.stmts@) =~= resolve_block(old(self)@, env).stmts);
    }
}

impl YaslStmt {
    /// What the statement adds to the mapping for the statements after it:
    /// a binding its name with its type, once it has one; an item what the
    /// item adds.
    pub fn update_idents(&self) -> (r: Vec<YaslIdent>)
        ensures
            spells_binding(r@, declared(self@)),
    {
        match self {
            YaslStmt::Local(l) => {
                let mut out: Vec<YaslIdent> = Vec::new();
                if let Some(i) = l.get_ident() {
                    out.push(i);
                }
                out
            },
            YaslStmt::Item(item) => item.update_idents(),
            YaslStmt::Expr(_) => Vec::new(),
        }
    }

    /// Resolves the statement. A nested item is resolved under the mapping
    /// with the item itself added.
    pub fn attempt_type_anotation(&mut self, idents: &TypeEnv)
        ensures
            final(self)@ == resolve_stmt(old(self)@, idents@),
        decreases *old(self), 0nat,
    {
        match self {
            YaslStmt::Local(l) => {
                l.attempt_type_anotation(idents);
            },
            YaslStmt::Expr(e) => {
                e.attempt_type_anotation(idents);
            },
            YaslStmt::Item(item) => {
                let mut inner = idents.clone();
                let own = item.update_idents();
                bind_all(&mut inner, &own, Ghost(item_binding(item@)));
                item.attempt_type_anotation(&inner);
            },
        }
    }
}

impl YaslExprFunctionScope {
    /// Resolves the blocks of the statement expression, each on its own
    /// copy of the mapping.
    pub fn attempt_type_anotation(&mut self, idents: &TypeEnv)
        ensures
            final(self)@ == resolve_stmt_expr(old(self)@, idents@),
        decreases *old(self), 0nat,
    {
        match self {
            YaslExprFunctionScope::Block(b) => {
                b.attempt_type_anotation(idents);
            },
            YaslExprFunctionScope::If(i) => {
                i.attempt_type_anotation(idents);
            },
            _ => {},
        }
    }
}

impl YaslExprIf {
    /// Resolves both branches of the conditional.
    pub fn attempt_type_anotation(&mut self, idents: &TypeEnv)
        ensures
            final(self)@ == resolve_stmt_expr(old(self)@, idents@),
        decreases *old(self), 0nat,
    {
        self.then_branch.attempt_type_anotation(idents);
        match &mut self.else_branch {
            Some((_, other)) => {
                other.attempt_type_anotation(idents);
            },
            None => {},
        }
    }
}

impl YaslFile {
    /// Resolves the module: each function under the mapping of the
    /// constants and functions up to and including it.
    pub fn attempt_type_anotation(&mut self)
        ensures
            final(self)@ == resolve_module(old(self)@),
    {
        let mut idents = TypeEnv::new();
        let ghost items0 = self.items;
        let ghost before = items_view(items0@);
        let mut i: usize = 0;
        while i < self.items.len()
            invariant
                0 <= i <= self.items.len(),
                self.items@.len() == items0@.len(),
                old(self).items == items0,
                before == items_view(items0@),
                idents@ == global_env(before, i as nat),
                forall|j: int|
                    0 <= j < i ==> (#[trigger] self.items@[j])@ == resolve_item(
                        before[j],
                        global_env(before, (j + 1) as nat),
                    ),
                forall|j: int| i <= j < self.items.len() ==> self.items@[j] == items0@[j],
            decreases self.items.len() - i,
        {
            assert(before[i as int] == items0@[i as int]@);
            let own = self.items[i].update_idents();
            bind_all(&mut idents, &own, Ghost(item_binding(self.items@[i as int]@)));
            self.items[i].attempt_type_anotation(&idents);
            i = i + 1;
        }
        assert(items_view(self.items@) =~= resolve_module(old(self)@).items);
    }
}

} // verus!
