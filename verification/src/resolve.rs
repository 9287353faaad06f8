//! The type resolver: a single forward pass that gives every binding
//! without a declared type the type of its initializer.
//!
//! The pass keeps a mapping from names, as the generated text spells them,
//! to types. The module seeds it with its constants and the return types of
//! its functions, in declaration order: an item sees itself and the items
//! before it. A block works on a copy of the mapping it is given, so that
//! what it declares does not leak out; each of its statements sees what the
//! statements before it declared.

use vstd::prelude::*;
use vstd::string::*;
use crate::text::str_eq;
use crate::yasl_block::Block;
use crate::yasl_expr::{StmtExpr, ValueExpr};
use crate::yasl_file::Module;
use crate::yasl_ident::Identifier;
use crate::yasl_item::Item;
use crate::yasl_stmt::{LocalBinding, Statement};
use crate::yasl_type::YaslType;

verus! {

/// The mapping from names to types, as the specifications see it.
pub type Env = Map<Seq<char>, YaslType>;

/// The type that the mapping holds for `name`, if it holds one.
pub open spec fn lookup(env: Env, name: Seq<char>) -> Option<YaslType> {
    if env.contains_key(name) {
        Some(env[name])
    } else {
        None
    }
}

/// The type that the mapping holds for `name`; `Void` where it holds
/// none.
pub open spec fn type_of_name(env: Env, name: Seq<char>) -> YaslType {
    match lookup(env, name) {
        Some(t) => t,
        None => YaslType::Void,
    }
}

/// The mapping with the binding `b` added, if there is one.
pub open spec fn bind(env: Env, b: Option<(Seq<char>, YaslType)>) -> Env {
    match b {
        Some((name, ty)) => env.insert(name, ty),
        None => env,
    }
}

/// The identifier with the type that the mapping holds for it; unchanged
/// where it holds none.
pub open spec fn annotate_ident(i: Identifier, env: Env) -> Identifier {
    match lookup(env, i.full_name()) {
        Some(t) => i.with_type(t),
        None => i,
    }
}

/// The expression with every name and every callee in it annotated.
pub open spec fn annotate(e: ValueExpr, env: Env) -> ValueExpr
    decreases e,
{
    match e {
        ValueExpr::Lit { .. } => e,
        ValueExpr::Binary { left, op, right } => ValueExpr::Binary {
            left: Box::new(annotate(*left, env)),
            op,
            right: Box::new(annotate(*right, env)),
        },
        ValueExpr::Call { ident, args } => ValueExpr::Call {
            ident: annotate_ident(ident, env),
            args: annotate_all(args, env),
        },
        ValueExpr::Cast { expr, ty } => ValueExpr::Cast {
            expr: Box::new(annotate(*expr, env)),
            ty,
        },
        ValueExpr::Ident(i) => ValueExpr::Ident(annotate_ident(i, env)),
        ValueExpr::Unary { op, expr, span } => ValueExpr::Unary {
            op,
            expr: Box::new(annotate(*expr, env)),
            span,
        },
        ValueExpr::Field { base, member, span } => ValueExpr::Field {
            base: Box::new(annotate(*base, env)),
            member,
            span,
        },
    }
}

/// The expressions, each annotated.
pub open spec fn annotate_all(args: Seq<ValueExpr>, env: Env) -> Seq<ValueExpr>
    decreases args,
{
    Seq::new(
        args.len(),
        |i: int|
            if 0 <= i < args.len() {
                annotate(args[i], env)
            } else {
                arbitrary()
            },
    )
}

/// The type of a value expression under a mapping: that of its kind for a
/// literal, of the left operand for a binary operation, the target for a
/// conversion, what the mapping holds for a name and for the callee of a
/// call. A unary operation and a member access carry no type of their
/// own. What has no type is `Void`.
pub open spec fn infer_type(e: ValueExpr, env: Env) -> YaslType
    decreases e,
{
    match e {
        ValueExpr::Lit { kind, .. } => kind.literal_type(),
        ValueExpr::Binary { left, .. } => infer_type(*left, env),
        ValueExpr::Call { ident, .. } => type_of_name(env, ident.full_name()),
        ValueExpr::Cast { ty, .. } => ty,
        ValueExpr::Ident(i) => type_of_name(env, i.full_name()),
        ValueExpr::Unary { .. } => YaslType::Void,
        ValueExpr::Field { .. } => YaslType::Void,
    }
}

/// The binding as the resolver leaves it. A declared type stands, and the
/// initializer is not visited. Without one, the initializer is annotated
/// and its type becomes the type of the binding; a binding with neither
/// is `Void`.
pub open spec fn resolve_local(l: LocalBinding, env: Env) -> LocalBinding {
    match l.ty {
        Some(_) => l,
        None => match l.init {
            Some(init) => LocalBinding {
                ident: l.ident,
                ty: Some(infer_type(init, env)),
                init: Some(annotate(init, env)),
            },
            None => LocalBinding { ident: l.ident, ty: Some(YaslType::Void), init: None },
        },
    }
}

/// What an item adds to the mapping: a constant its type, a function its
/// return type, an interface slot nothing.
pub open spec fn item_binding(item: Item) -> Option<(Seq<char>, YaslType)> {
    match item {
        Item::StaticConst { ident, ty, .. } => Some((ident.full_name(), ty)),
        Item::Function { ident, output, .. } => Some((ident.full_name(), output)),
        Item::InterfaceSlot { .. } => None,
    }
}

/// What a statement adds to the mapping for the statements after it: a
/// binding its name with its type, once it has one; an item what the item
/// adds.
pub open spec fn declared(s: Statement) -> Option<(Seq<char>, YaslType)> {
    match s {
        Statement::LocalBinding(l) => match l.ty {
            Some(t) => Some((l.ident.full_name(), t)),
            None => None,
        },
        Statement::NestedItem(item) => item_binding(item),
        Statement::ExpressionStatement(_) => None,
    }
}

/// The item as the resolver leaves it, under a mapping that holds the
/// item itself: the body of a function is resolved.
pub open spec fn resolve_item(item: Item, env: Env) -> Item
    decreases item, 0nat,
{
    match item {
        Item::Function { ident, params, output, body } => Item::Function {
            ident,
            params,
            output,
            body: resolve_block(body, env),
        },
        _ => item,
    }
}

/// The block as the resolver leaves it: each statement resolved under the
/// mapping that the statements before it made of `env`.
pub open spec fn resolve_block(b: Block, env: Env) -> Block
    decreases b, 0nat,
{
    Block {
        span: b.span,
        stmts: Seq::new(
            b.stmts.len(),
            |i: int|
                if 0 <= i < b.stmts.len() {
                    resolve_stmt(b.stmts[i], env_before(b.stmts, env, i as nat))
                } else {
                    arbitrary()
                },
        ),
    }
}

/// The mapping that the statement at `i` sees: `env` with what the
/// statements before it declared, each as resolved.
pub open spec fn env_before(stmts: Seq<Statement>, env: Env, i: nat) -> Env
    decreases stmts, i,
{
    if i == 0 || i > stmts.len() {
        env
    } else {
        let before = env_before(stmts, env, (i - 1) as nat);
        bind(before, declared(resolve_stmt(stmts[i - 1], before)))
    }
}

/// The statement as the resolver leaves it. A nested item is resolved
/// under the mapping with the item itself added.
pub open spec fn resolve_stmt(s: Statement, env: Env) -> Statement
    decreases s, 0nat,
{
    match s {
        Statement::LocalBinding(l) => Statement::LocalBinding(resolve_local(l, env)),
        Statement::ExpressionStatement(e) => Statement::ExpressionStatement(
            resolve_stmt_expr(e, env),
        ),
        Statement::NestedItem(item) => Statement::NestedItem(
            resolve_item(item, bind(env, item_binding(item))),
        ),
    }
}

/// The statement expression as the resolver leaves it: the blocks in it
/// are resolved, each on its own copy of the mapping.
pub open spec fn resolve_stmt_expr(e: StmtExpr, env: Env) -> StmtExpr
    decreases e, 0nat,
{
    match e {
        StmtExpr::If { span, cond, then_branch, else_branch } => StmtExpr::If {
            span,
            cond,
            then_branch: resolve_block(then_branch, env),
            else_branch: match else_branch {
                Some((s, other)) => Some((s, Box::new(resolve_stmt_expr(*other, env)))),
                None => None,
            },
        },
        StmtExpr::Block(b) => StmtExpr::Block(resolve_block(b, env)),
        _ => e,
    }
}

/// The mapping that the item at `i` sees: what the items up to and
/// including it add, in order.
pub open spec fn global_env(items: Seq<Item>, i: nat) -> Env
    decreases i,
{
    if i == 0 || i > items.len() {
        Map::empty()
    } else {
        bind(global_env(items, (i - 1) as nat), item_binding(items[i - 1]))
    }
}

/// The module as the resolver leaves it.
pub open spec fn resolve_module(m: Module) -> Module {
    Module {
        items: Seq::new(
            m.items.len(),
            |i: int| resolve_item(m.items[i], global_env(m.items, (i + 1) as nat)),
        ),
    }
}

/// The mapping from names to types.
#[derive(Debug)]
pub struct TypeEnv {
    pub entries: Vec<(String, YaslType)>,
}

/// The mapping that the first `n` entries make: a later entry for a name
/// replaces an earlier one.
pub open spec fn entries_map(es: Seq<(String, YaslType)>, n: nat) -> Env
    decreases n,
{
    if n == 0 || n > es.len() {
        Map::empty()
    } else {
        entries_map(es, (n - 1) as nat).insert(es[n - 1].0@, es[n - 1].1)
    }
}

impl Clone for TypeEnv {
    fn clone(&self) -> (r: Self)
        ensures
            r@ == self@,
    {
        let mut entries: Vec<(String, YaslType)> = Vec::new();
        let mut i: usize = 0;
        while i < self.entries.len()
            invariant
                0 <= i <= self.entries.len(),
                entries@ == self.entries@.take(i as int),
            decreases self.entries.len() - i,
        {
            entries.push((self.entries[i].0.clone(), self.entries[i].1));
            assert(entries@ =~= self.entries@.take(i + 1));
            i = i + 1;
        }
        assert(entries@ =~= self.entries@);
        TypeEnv { entries }
    }
}

impl TypeEnv {
    pub open spec fn view(&self) -> Env {
        entries_map(self.entries@, self.entries@.len())
    }

    /// The empty mapping.
    pub fn new() -> (r: TypeEnv)
        ensures
            r@ == Map::<Seq<char>, YaslType>::empty(),
    {
        TypeEnv { entries: Vec::new() }
    }

    /// Maps `name` to `ty`, whatever it was mapped to before.
    pub fn insert(&mut self, name: String, ty: YaslType)
        ensures
            final(self)@ == old(self)@.insert(name@, ty),
    {
        let ghost before = self.entries@;
        self.entries.push((name, ty));
        proof {
            lemma_entries_map_prefix(before, self.entries@, before.len());
        }
    }

    /// The type that `name` is mapped to.
    pub fn get(&self, name: &str) -> (r: Option<YaslType>)
        ensures
            r == lookup(self@, name@),
    {
        let mut i: usize = self.entries.len();
        while i > 0
            invariant
                0 <= i <= self.entries.len(),
                lookup(self@, name@) == lookup(entries_map(self.entries@, i as nat), name@),
            decreases i,
        {
            if str_eq(self.entries[i - 1].0.as_str(), name) {
                return Some(self.entries[i - 1].1);
            }
            i = i - 1;
        }
        None
    }
}

/// The mapping of the first `n` entries depends on those entries alone.
pub proof fn lemma_entries_map_prefix(
    a: Seq<(String, YaslType)>,
    b: Seq<(String, YaslType)>,
    n: nat,
)
    requires
        n <= a.len(),
        n <= b.len(),
        forall|j: int| 0 <= j < n ==> a[j] == b[j],
    ensures
        entries_map(a, n) == entries_map(b, n),
    decreases n,
{
    if n > 0 {
        lemma_entries_map_prefix(a, b, (n - 1) as nat);
    }
}

/// Annotating leaves names and literals as they are: what held no line
/// feed holds none.
pub proof fn lemma_annotate_wf(e: ValueExpr, env: Env)
    requires
        e.wf(),
    ensures
        annotate(e, env).wf(),
    decreases e,
{
    match e {
        ValueExpr::Lit { .. } => {},
        ValueExpr::Binary { left, right, .. } => {
            lemma_annotate_wf(*left, env);
            lemma_annotate_wf(*right, env);
        },
        ValueExpr::Call { ident, args } => {
            assert forall|i: int| 0 <= i < args.len() implies (#[trigger] annotate_all(
                args,
                env,
            )[i]).wf() by {
                lemma_annotate_wf(args[i], env);
            }
            let annotated = annotate_all(args, env);
            assert(forall|i: int| 0 <= i < annotated.len() ==> (#[trigger] annotated[i]).wf());
        },
        ValueExpr::Cast { expr, .. } => {
            lemma_annotate_wf(*expr, env);
        },
        ValueExpr::Ident(_) => {},
        ValueExpr::Unary { expr, .. } => {
            lemma_annotate_wf(*expr, env);
        },
        ValueExpr::Field { base, .. } => {
            lemma_annotate_wf(*base, env);
        },
    }
}

/// Resolving an item leaves names and literals as they are.
pub proof fn lemma_resolve_item_wf(item: Item, env: Env)
    requires
        item.wf(),
    ensures
        resolve_item(item, env).wf(),
    decreases item, 0nat,
{
    match item {
        Item::Function { body, .. } => {
            lemma_resolve_block_wf(body, env);
        },
        _ => {},
    }
}

/// Resolving a block leaves names and literals as they are.
pub proof fn lemma_resolve_block_wf(b: Block, env: Env)
    requires
        b.wf(),
    ensures
        resolve_block(b, env).wf(),
    decreases b, 0nat,
{
    assert forall|i: int| 0 <= i < b.stmts.len() implies (#[trigger] resolve_block(
        b,
        env,
    ).stmts[i]).wf() by {
        lemma_resolve_stmt_wf(b.stmts[i], env_before(b.stmts, env, i as nat));
    }
}

/// Resolving a statement leaves names and literals as they are.
pub proof fn lemma_resolve_stmt_wf(s: Statement, env: Env)
    requires
        s.wf(),
    ensures
        resolve_stmt(s, env).wf(),
    decreases s, 0nat,
{
    match s {
        Statement::LocalBinding(l) => {
            match l.init {
                Some(init) => {
                    lemma_annotate_wf(init, env);
                },
                None => {},
            }
        },
        Statement::ExpressionStatement(e) => {
            lemma_resolve_stmt_expr_wf(e, env);
        },
        Statement::NestedItem(item) => {
            lemma_resolve_item_wf(item, bind(env, item_binding(item)));
        },
    }
}

/// Resolving a statement expression leaves names and literals as they
/// are.
pub proof fn lemma_resolve_stmt_expr_wf(e: StmtExpr, env: Env)
    requires
        e.wf(),
    ensures
        resolve_stmt_expr(e, env).wf(),
    decreases e, 0nat,
{
    match e {
        StmtExpr::If { then_branch, else_branch, .. } => {
            lemma_resolve_block_wf(then_branch, env);
            match else_branch {
                Some((_, other)) => {
                    lemma_resolve_stmt_expr_wf(*other, env);
                },
                None => {},
            }
        },
        StmtExpr::Block(b) => {
            lemma_resolve_block_wf(b, env);
        },
        _ => {},
    }
}

/// Resolving a module leaves names and literals as they are: what held no
/// line feed holds none.
pub proof fn lemma_resolve_module_wf(m: Module)
    requires
        m.wf(),
    ensures
        resolve_module(m).wf(),
{
    assert forall|i: int| 0 <= i < m.items.len() implies (#[trigger] resolve_module(m).items[i]).wf() by {
        lemma_resolve_item_wf(m.items[i], global_env(m.items, (i + 1) as nat));
    }
}

/// The mapping that a statement sees depends on the statements before it
/// alone: two blocks that agree on their first `i` statements give the
/// statement at `i` the same mapping.
pub proof fn lemma_env_before_is_local(a: Seq<Statement>, b: Seq<Statement>, env: Env, i: nat)
    requires
        i <= a.len(),
        i <= b.len(),
        forall|k: int| 0 <= k < i ==> a[k] == b[k],
    ensures
        env_before(a, env, i) == env_before(b, env, i),
    decreases i,
{
    if i > 0 {
        lemma_env_before_is_local(a, b, env, (i - 1) as nat);
    }
}

/// What a statement has declared stays declared for every statement after
/// it: a name that the mapping holds at one statement, it holds at each
/// later one.
pub proof fn lemma_env_before_keeps_names(
    stmts: Seq<Statement>,
    env: Env,
    i: nat,
    j: nat,
    name: Seq<char>,
)
    requires
        i <= j <= stmts.len(),
        env_before(stmts, env, i).contains_key(name),
    ensures
        env_before(stmts, env, j).contains_key(name),
    decreases j,
{
    if i < j {
        lemma_env_before_keeps_names(stmts, env, i, (j - 1) as nat, name);
    }
}

/// Inference is local and forward. A `let` without a declared type, at
/// `i` in a block, receives the type of its initializer under the mapping
/// of the statements before it, a mapping that no later statement
/// changes; the statement after it sees the name with that type, and
/// every later statement sees the name.
pub proof fn lemma_inference_is_local(b: Block, env: Env, i: int, l: LocalBinding, init: ValueExpr)
    requires
        0 <= i < b.stmts.len(),
        b.stmts[i] == Statement::LocalBinding(l),
        l.ty is None,
        l.init == Some(init),
    ensures
        resolve_block(b, env).stmts[i] matches Statement::LocalBinding(r) && r.ty == Some(
            infer_type(init, env_before(b.stmts, env, i as nat)),
        ),
        env_before(b.stmts, env, (i + 1) as nat) == env_before(b.stmts, env, i as nat).insert(
            l.ident.full_name(),
            infer_type(init, env_before(b.stmts, env, i as nat)),
        ),
        forall|j: nat|
            i < j <= b.stmts.len() ==> (#[trigger] env_before(b.stmts, env, j)).contains_key(
                l.ident.full_name(),
            ),
        forall|other: Seq<Statement>|
            i <= other.len() && (forall|k: int| 0 <= k < i ==> b.stmts[k] == other[k])
                ==> env_before(b.stmts, env, i as nat) == #[trigger] env_before(
                other,
                env,
                i as nat,
            ),
{
    let before = env_before(b.stmts, env, i as nat);
    let name = l.ident.full_name();
    assert(resolve_stmt(b.stmts[i], before) == Statement::LocalBinding(resolve_local(l, before)));
    assert(env_before(b.stmts, env, (i + 1) as nat) == bind(
        before,
        declared(resolve_stmt(b.stmts[i], before)),
    ));
    assert forall|j: nat| i < j <= b.stmts.len() implies (#[trigger] env_before(
        b.stmts,
        env,
        j,
    )).contains_key(name) by {
        lemma_env_before_keeps_names(b.stmts, env, (i + 1) as nat, j, name);
    }
    assert forall|other: Seq<Statement>|
        i <= other.len() && (forall|k: int| 0 <= k < i ==> b.stmts[k] == other[k]) implies before
        == #[trigger] env_before(other, env, i as nat) by {
        lemma_env_before_is_local(b.stmts, other, env, i as nat);
    }
}

/// Every binding of the item has a type.
pub open spec fn item_is_typed(item: Item) -> bool
    decreases item,
{
    match item {
        Item::Function { body, .. } => block_is_typed(body),
        _ => true,
    }
}

/// Every binding in the block has a type.
pub open spec fn block_is_typed(b: Block) -> bool
    decreases b,
{
    forall|i: int| 0 <= i < b.stmts.len() ==> stmt_is_typed(#[trigger] b.stmts[i])
}

/// Every binding of the statement has a type.
pub open spec fn stmt_is_typed(s: Statement) -> bool
    decreases s,
{
    match s {
        Statement::LocalBinding(l) => l.ty is Some,
        Statement::ExpressionStatement(e) => stmt_expr_is_typed(e),
        Statement::NestedItem(item) => item_is_typed(item),
    }
}

/// Every binding in the statement expression has a type.
pub open spec fn stmt_expr_is_typed(e: StmtExpr) -> bool
    decreases e,
{
    match e {
        StmtExpr::If { then_branch, else_branch, .. } => block_is_typed(then_branch)
            && match else_branch {
            Some((_, other)) => stmt_expr_is_typed(*other),
            None => true,
        },
        StmtExpr::Block(b) => block_is_typed(b),
        _ => true,
    }
}

/// Every binding of the module has a type.
pub open spec fn module_is_typed(m: Module) -> bool {
    forall|i: int| 0 <= i < m.items.len() ==> item_is_typed(#[trigger] m.items[i])
}

/// The resolver leaves no binding of an item without a type.
pub proof fn lemma_resolved_item_is_typed(item: Item, env: Env)
    ensures
        item_is_typed(resolve_item(item, env)),
    decreases item, 0nat,
{
    match item {
        Item::Function { body, .. } => {
            lemma_resolved_block_is_typed(body, env);
        },
        _ => {},
    }
}

/// The resolver leaves no binding of a block without a type.
pub proof fn lemma_resolved_block_is_typed(b: Block, env: Env)
    ensures
        block_is_typed(resolve_block(b, env)),
    decreases b, 0nat,
{
    assert forall|i: int| 0 <= i < b.stmts.len() implies stmt_is_typed(
        #[trigger] resolve_block(b, env).stmts[i],
    ) by {
        lemma_resolved_stmt_is_typed(b.stmts[i], env_before(b.stmts, env, i as nat));
    }
}

/// The resolver leaves no binding of a statement without a type.
pub proof fn lemma_resolved_stmt_is_typed(s: Statement, env: Env)
    ensures
        stmt_is_typed(resolve_stmt(s, env)),
    decreases s, 0nat,
{
    match s {
        Statement::LocalBinding(_) => {},
        Statement::ExpressionStatement(e) => {
            lemma_resolved_stmt_expr_is_typed(e, env);
        },
        Statement::NestedItem(item) => {
            lemma_resolved_item_is_typed(item, bind(env, item_binding(item)));
        },
    }
}

/// The resolver leaves no binding of a statement expression without a
/// type.
pub proof fn lemma_resolved_stmt_expr_is_typed(e: StmtExpr, env: Env)
    ensures
        stmt_expr_is_typed(resolve_stmt_expr(e, env)),
    decreases e, 0nat,
{
    match e {
        StmtExpr::If { then_branch, else_branch, .. } => {
            lemma_resolved_block_is_typed(then_branch, env);
            match else_branch {
                Some((_, other)) => {
                    lemma_resolved_stmt_expr_is_typed(*other, env);
                },
                None => {},
            }
        },
        StmtExpr::Block(b) => {
            lemma_resolved_block_is_typed(b, env);
        },
        _ => {},
    }
}

/// Every binding ends the resolver pass with a type, declared or
/// inferred.
pub proof fn lemma_resolved_module_is_typed(m: Module)
    ensures
        module_is_typed(resolve_module(m)),
{
    assert forall|i: int| 0 <= i < m.items.len() implies item_is_typed(
        #[trigger] resolve_module(m).items[i],
    ) by {
        lemma_resolved_item_is_typed(m.items[i], global_env(m.items, (i + 1) as nat));
    }
}

/// The type of `Void` where there is none.
pub open spec fn or_void(t: Option<YaslType>) -> YaslType {
    match t {
        Some(t) => t,
        None => YaslType::Void,
    }
}

/// The type that an expression carries once it is annotated is the type
/// that the resolver infers for it: for an expression as the parser
/// leaves it, reading the annotations and asking the mapping agree.
pub proof fn lemma_attached_type_is_inferred_type(e: ValueExpr, env: Env)
    requires
        e.is_unresolved(),
    ensures
        or_void(annotate(e, env).attached_type()) == infer_type(e, env),
    decreases e,
{
    match e {
        ValueExpr::Binary { left, .. } => {
            lemma_attached_type_is_inferred_type(*left, env);
        },
        _ => {},
    }
}

} // verus!
