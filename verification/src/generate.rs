//! The code generator, as functions from the syntax tree to the lines of
//! GLSL that it stands for.
//!
//! Expressions are text: operands and operators as the source writes them,
//! names with their prefix, types by their GLSL name. Every statement-level
//! construct makes lines, each tagged with the source region of what
//! produced it: one line for a binding, a constant, an interface slot, an
//! assignment, a return or a value; the head of a function and of a
//! conditional on a line of its own; each brace of a block on a line of
//! its own.

use vstd::prelude::*;
use vstd::string::*;
use crate::glsl::{GeneratedLine, SourceMap, lines_wf, render_lines};
use crate::number::{decimal_text, lemma_decimal_text_is_decimal};
use crate::text::is_line_text;
use crate::token::{lemma_op_text_is_line_text, lemma_unop_text_is_line_text};
use crate::yasl_type::lemma_type_name_is_line_text;
use crate::span::Span;
use crate::yasl_block::Block;
use crate::yasl_expr::{StmtExpr, ValueExpr};
use crate::yasl_file::Module;
use crate::yasl_ident::Identifier;
use crate::yasl_item::{Item, LayoutKind};
use crate::yasl_stmt::{LocalBinding, Statement};
use crate::yasl_type::YaslType;

verus! {

/// The text of a value expression.
pub open spec fn expr_text(e: ValueExpr) -> Seq<char>
    decreases e,
{
    match e {
        ValueExpr::Lit { text, .. } => text,
        ValueExpr::Binary { left, op, right } => expr_text(*left) + " "@ + op.text() + " "@
            + expr_text(*right),
        ValueExpr::Call { ident, args } => ident.full_name() + "("@ + args_text(args, args.len())
            + ")"@,
        ValueExpr::Cast { expr, ty } => ty.glsl_name() + "("@ + expr_text(*expr) + ")"@,
        ValueExpr::Ident(i) => i.full_name(),
        ValueExpr::Unary { op, expr, .. } => op.text() + expr_text(*expr),
        ValueExpr::Field { base, member, .. } => expr_text(*base) + "."@ + member,
    }
}

/// The text of the first `n` arguments, with a comma between each two.
pub open spec fn args_text(args: Seq<ValueExpr>, n: nat) -> Seq<char>
    decreases args, n,
{
    if n == 0 || n > args.len() {
        Seq::empty()
    } else if n == 1 {
        expr_text(args[0])
    } else {
        args_text(args, (n - 1) as nat) + ","@ + expr_text(args[n - 1])
    }
}

/// The text of the first `n` parameters, each its type and its name, with
/// a comma between each two.
pub open spec fn params_text(params: Seq<(Identifier, YaslType)>, n: nat) -> Seq<char>
    decreases n,
{
    if n == 0 || n > params.len() {
        Seq::empty()
    } else if n == 1 {
        param_text(params[0])
    } else {
        params_text(params, (n - 1) as nat) + ","@ + param_text(params[n - 1])
    }
}

/// The text of a parameter: its type, a space, its name.
pub open spec fn param_text(p: (Identifier, YaslType)) -> Seq<char> {
    p.1.glsl_name() + " "@ + p.0.full_name()
}

/// A line that ends in a semicolon.
pub open spec fn statement_line(text: Seq<char>, span: Span) -> GeneratedLine {
    GeneratedLine { text, span: Some(span), terminated: true }
}

/// A line that ends without a semicolon.
pub open spec fn open_line(text: Seq<char>, span: Span) -> GeneratedLine {
    GeneratedLine { text, span: Some(span), terminated: false }
}

/// The text of an assignment.
pub open spec fn assign_text(left: Identifier, right: ValueExpr) -> Seq<char> {
    left.full_name() + " = "@ + expr_text(right)
}

/// The text of an assignment through an operator.
pub open spec fn assign_op_text(left: Identifier, op: crate::token::BinOp, right: ValueExpr) -> Seq<
    char,
> {
    left.full_name() + " "@ + op.text() + " "@ + expr_text(right)
}

/// The text of a return.
pub open spec fn return_text(expr: Option<ValueExpr>) -> Seq<char> {
    "return "@ + match expr {
        Some(e) => expr_text(e),
        None => Seq::empty(),
    }
}

/// The text of the head of a conditional.
pub open spec fn if_text(cond: ValueExpr) -> Seq<char> {
    "if("@ + expr_text(cond) + ")"@
}

/// The type of a binding in the generated text: `Void` where the binding
/// has none.
pub open spec fn local_type(l: LocalBinding) -> YaslType {
    match l.ty {
        Some(t) => t,
        None => YaslType::Void,
    }
}

/// The text of a binding: its type, its name and, where it has one, `=`
/// and its initializer, a space between each two.
pub open spec fn local_text(l: LocalBinding) -> Seq<char> {
    local_type(l).glsl_name() + " "@ + l.ident.full_name() + " "@ + match l.init {
        Some(e) => "= "@ + expr_text(e),
        None => Seq::empty(),
    }
}

/// The text of a constant.
pub open spec fn static_text(ident: Identifier, ty: YaslType, init: ValueExpr) -> Seq<char> {
    ty.glsl_name() + " "@ + ident.full_name() + " = "@ + expr_text(init)
}

/// The GLSL word for a direction.
pub open spec fn direction_text(d: LayoutKind) -> Seq<char> {
    match d {
        LayoutKind::Input => "in"@,
        LayoutKind::Output => "out"@,
    }
}

/// The text of an interface slot.
pub open spec fn layout_text(direction: LayoutKind, slot_index: usize, ident: Identifier, ty: YaslType)
    -> Seq<char> {
    "layout(location="@ + decimal_text(slot_index as nat) + ") "@ + direction_text(direction)
        + " "@ + ty.glsl_name() + " "@ + ident.full_name()
}

/// The text of the head of a function.
pub open spec fn signature_text(
    ident: Identifier,
    params: Seq<(Identifier, YaslType)>,
    output: YaslType,
) -> Seq<char> {
    output.glsl_name() + " "@ + ident.full_name() + "("@ + params_text(params, params.len())
        + ")"@
}

/// The lines of a statement expression.
pub open spec fn stmt_expr_lines(e: StmtExpr) -> SourceMap
    decreases e, 0nat,
{
    match e {
        StmtExpr::Value(v) => seq![statement_line(expr_text(v), v.span())],
        StmtExpr::Assign { left, right } => seq![
            statement_line(assign_text(left, right), left.span),
        ],
        StmtExpr::AssignOp { left, op, right } => seq![
            statement_line(assign_op_text(left, op, right), left.span),
        ],
        StmtExpr::Return { span, expr } => seq![statement_line(return_text(expr), span)],
        StmtExpr::If { span, cond, then_branch, else_branch } => seq![
            open_line(if_text(cond), span),
        ] + block_lines(then_branch) + match else_branch {
            Some((else_span, other)) => seq![open_line("else"@, else_span)] + stmt_expr_lines(
                *other,
            ),
            None => Seq::empty(),
        },
        StmtExpr::Block(b) => block_lines(b),
    }
}

/// The lines of a block: its opening brace, its statements, its closing
/// brace.
pub open spec fn block_lines(b: Block) -> SourceMap
    decreases b, 0nat,
{
    seq![open_line("{"@, b.span)] + stmts_lines(b.stmts, b.stmts.len()) + seq![
        open_line("}"@, b.span),
    ]
}

/// The lines of the first `n` statements.
pub open spec fn stmts_lines(stmts: Seq<Statement>, n: nat) -> SourceMap
    decreases stmts, n,
{
    if n == 0 || n > stmts.len() {
        Seq::empty()
    } else {
        stmts_lines(stmts, (n - 1) as nat) + stmt_lines(stmts[n - 1])
    }
}

/// The lines of a statement.
pub open spec fn stmt_lines(s: Statement) -> SourceMap
    decreases s, 0nat,
{
    match s {
        Statement::LocalBinding(l) => seq![statement_line(local_text(l), l.ident.span)],
        Statement::ExpressionStatement(e) => stmt_expr_lines(e),
        Statement::NestedItem(item) => item_lines(item),
    }
}

/// The lines of an item.
pub open spec fn item_lines(item: Item) -> SourceMap
    decreases item, 0nat,
{
    match item {
        Item::StaticConst { ident, ty, init } => seq![
            statement_line(static_text(ident, ty, init), ident.span),
        ],
        Item::InterfaceSlot { direction, slot_index, ident, ty } => seq![
            statement_line(layout_text(direction, slot_index, ident, ty), ident.span),
        ],
        Item::Function { ident, params, output, body } => seq![
            open_line(signature_text(ident, params, output), ident.span),
        ] + block_lines(body),
    }
}

/// The lines of the first `n` items.
pub open spec fn items_lines(items: Seq<Item>, n: nat) -> SourceMap
    decreases n,
{
    if n == 0 || n > items.len() {
        Seq::empty()
    } else {
        items_lines(items, (n - 1) as nat) + item_lines(items[n - 1])
    }
}

/// The lines of a module: the source map of its generated text.
pub open spec fn module_lines(m: Module) -> SourceMap {
    items_lines(m.items, m.items.len())
}

/// The line that the output starts with.
pub open spec fn preamble() -> Seq<char> {
    "#version 450"@
}

/// The entry point that the output ends with: it calls the function
/// `main` of the shader.
pub open spec fn entry_point() -> Seq<char> {
    "void main(){ yasl_main(); }"@
}

/// The output for the lines `lines`: the preamble on a line of its own,
/// the lines, an empty line and the entry point.
pub open spec fn output_text(lines: SourceMap) -> Seq<char> {
    preamble().push('\n') + render_lines(lines) + seq!['\n'] + entry_point()
}

/// The fixed texts of the generator hold no line feed.
pub proof fn lemma_fixed_texts_are_line_text()
    ensures
        is_line_text(" "@),
        is_line_text("("@),
        is_line_text(")"@),
        is_line_text(","@),
        is_line_text("."@),
        is_line_text(" = "@),
        is_line_text("= "@),
        is_line_text("return "@),
        is_line_text("if("@),
        is_line_text("else"@),
        is_line_text("{"@),
        is_line_text("}"@),
        is_line_text("layout(location="@),
        is_line_text(") "@),
        is_line_text("in"@),
        is_line_text("out"@),
        is_line_text(preamble()),
        is_line_text(entry_point()),
{
    reveal_strlit(" ");
    reveal_strlit("(");
    reveal_strlit(")");
    reveal_strlit(",");
    reveal_strlit(".");
    reveal_strlit(" = ");
    reveal_strlit("= ");
    reveal_strlit("return ");
    reveal_strlit("if(");
    reveal_strlit("else");
    reveal_strlit("{");
    reveal_strlit("}");
    reveal_strlit("layout(location=");
    reveal_strlit(") ");
    reveal_strlit("in");
    reveal_strlit("out");
    reveal_strlit("#version 450");
    reveal_strlit("void main(){ yasl_main(); }");
}

/// The text of a value expression whose names and literals hold no line
/// feed holds none.
pub proof fn lemma_expr_text_is_line_text(e: ValueExpr)
    requires
        e.wf(),
    ensures
        is_line_text(expr_text(e)),
    decreases e,
{
    lemma_fixed_texts_are_line_text();
    match e {
        ValueExpr::Lit { .. } => {},
        ValueExpr::Binary { left, op, right } => {
            lemma_expr_text_is_line_text(*left);
            lemma_expr_text_is_line_text(*right);
            lemma_op_text_is_line_text(op);
        },
        ValueExpr::Call { ident, args } => {
            lemma_args_text_is_line_text(args, args.len());
        },
        ValueExpr::Cast { expr, ty } => {
            lemma_expr_text_is_line_text(*expr);
            lemma_type_name_is_line_text(ty);
        },
        ValueExpr::Ident(_) => {},
        ValueExpr::Unary { op, expr, .. } => {
            lemma_expr_text_is_line_text(*expr);
            lemma_unop_text_is_line_text(op);
        },
        ValueExpr::Field { base, .. } => {
            lemma_expr_text_is_line_text(*base);
        },
    }
}

/// The text of arguments whose names and literals hold no line feed
/// holds none.
pub proof fn lemma_args_text_is_line_text(args: Seq<ValueExpr>, n: nat)
    requires
        forall|i: int| 0 <= i < args.len() ==> (#[trigger] args[i]).wf(),
    ensures
        is_line_text(args_text(args, n)),
    decreases args, n,
{
    lemma_fixed_texts_are_line_text();
    if n == 0 || n > args.len() {
    } else if n == 1 {
        lemma_expr_text_is_line_text(args[0]);
    } else {
        lemma_args_text_is_line_text(args, (n - 1) as nat);
        lemma_expr_text_is_line_text(args[n - 1]);
    }
}

/// The text of parameters whose names hold no line feed holds none.
pub proof fn lemma_params_text_is_line_text(params: Seq<(Identifier, YaslType)>, n: nat)
    requires
        forall|i: int| 0 <= i < params.len() ==> (#[trigger] params[i]).0.wf(),
    ensures
        is_line_text(params_text(params, n)),
    decreases n,
{
    lemma_fixed_texts_are_line_text();
    if n == 0 || n > params.len() {
    } else {
        lemma_type_name_is_line_text(params[n - 1].1);
        assert(params[n - 1].0.wf());
        if n == 1 {
        } else {
            lemma_params_text_is_line_text(params, (n - 1) as nat);
        }
    }
}

/// The line of a binding whose names and literals hold no line feed
/// holds none.
pub proof fn lemma_local_text_is_line_text(l: LocalBinding)
    requires
        l.wf(),
    ensures
        is_line_text(local_text(l)),
{
    lemma_fixed_texts_are_line_text();
    lemma_type_name_is_line_text(local_type(l));
    match l.init {
        Some(e) => {
            lemma_expr_text_is_line_text(e);
        },
        None => {},
    }
}

/// The lines of a statement expression whose names and literals hold no
/// line feed hold none.
pub proof fn lemma_stmt_expr_lines_wf(e: StmtExpr)
    requires
        e.wf(),
    ensures
        lines_wf(stmt_expr_lines(e)),
    decreases e, 0nat,
{
    lemma_fixed_texts_are_line_text();
    match e {
        StmtExpr::Value(v) => {
            lemma_expr_text_is_line_text(v);
        },
        StmtExpr::Assign { left, right } => {
            lemma_expr_text_is_line_text(right);
        },
        StmtExpr::AssignOp { left, op, right } => {
            lemma_expr_text_is_line_text(right);
            lemma_op_text_is_line_text(op);
        },
        StmtExpr::Return { expr, .. } => {
            match expr {
                Some(v) => {
                    lemma_expr_text_is_line_text(v);
                },
                None => {},
            }
        },
        StmtExpr::If { cond, then_branch, else_branch, .. } => {
            lemma_expr_text_is_line_text(cond);
            lemma_block_lines_wf(then_branch);
            match else_branch {
                Some((_, other)) => {
                    lemma_stmt_expr_lines_wf(*other);
                },
                None => {},
            }
        },
        StmtExpr::Block(b) => {
            lemma_block_lines_wf(b);
        },
    }
}

/// The lines of a block whose names and literals hold no line feed hold
/// none.
pub proof fn lemma_block_lines_wf(b: Block)
    requires
        b.wf(),
    ensures
        lines_wf(block_lines(b)),
    decreases b, 0nat,
{
    lemma_fixed_texts_are_line_text();
    lemma_stmts_lines_wf(b.stmts, b.stmts.len());
}

/// The lines of statements whose names and literals hold no line feed
/// hold none.
pub proof fn lemma_stmts_lines_wf(stmts: Seq<Statement>, n: nat)
    requires
        forall|i: int| 0 <= i < stmts.len() ==> (#[trigger] stmts[i]).wf(),
    ensures
        lines_wf(stmts_lines(stmts, n)),
    decreases stmts, n,
{
    if n == 0 || n > stmts.len() {
    } else {
        lemma_stmts_lines_wf(stmts, (n - 1) as nat);
        lemma_stmt_lines_wf(stmts[n - 1]);
    }
}

/// The lines of a statement whose names and literals hold no line feed
/// hold none.
pub proof fn lemma_stmt_lines_wf(s: Statement)
    requires
        s.wf(),
    ensures
        lines_wf(stmt_lines(s)),
    decreases s, 0nat,
{
    match s {
        Statement::LocalBinding(l) => {
            lemma_local_text_is_line_text(l);
        },
        Statement::ExpressionStatement(e) => {
            lemma_stmt_expr_lines_wf(e);
        },
        Statement::NestedItem(item) => {
            lemma_item_lines_wf(item);
        },
    }
}

/// The lines of an item whose names and literals hold no line feed hold
/// none.
pub proof fn lemma_item_lines_wf(item: Item)
    requires
        item.wf(),
    ensures
        lines_wf(item_lines(item)),
    decreases item, 0nat,
{
    lemma_fixed_texts_are_line_text();
    match item {
        Item::StaticConst { ident, ty, init } => {
            lemma_type_name_is_line_text(ty);
            lemma_expr_text_is_line_text(init);
        },
        Item::InterfaceSlot { direction, slot_index, ident, ty } => {
            lemma_type_name_is_line_text(ty);
            lemma_decimal_text_is_decimal(slot_index as nat);
        },
        Item::Function { ident, params, output, body } => {
            lemma_type_name_is_line_text(output);
            lemma_params_text_is_line_text(params, params.len());
            lemma_block_lines_wf(body);
        },
    }
}

/// The lines of items whose names and literals hold no line feed hold
/// none.
pub proof fn lemma_items_lines_wf(items: Seq<Item>, n: nat)
    requires
        forall|i: int| 0 <= i < items.len() ==> (#[trigger] items[i]).wf(),
    ensures
        lines_wf(items_lines(items, n)),
    decreases n,
{
    if n == 0 || n > items.len() {
    } else {
        lemma_items_lines_wf(items, (n - 1) as nat);
        lemma_item_lines_wf(items[n - 1]);
    }
}

/// No generated line of a module holds a line feed, where no name and no
/// literal of the module does.
pub proof fn lemma_module_lines_wf(m: Module)
    requires
        m.wf(),
    ensures
        lines_wf(module_lines(m)),
{
    lemma_items_lines_wf(m.items, m.items.len());
}

/// Every line carries a source region.
pub open spec fn lines_have_spans(lines: SourceMap) -> bool {
    forall|i: int| 0 <= i < lines.len() ==> (#[trigger] lines[i]).span is Some
}

/// Every line of a statement expression carries the source region of what
/// produced it.
pub proof fn lemma_stmt_expr_lines_have_spans(e: StmtExpr)
    ensures
        lines_have_spans(stmt_expr_lines(e)),
    decreases e, 0nat,
{
    match e {
        StmtExpr::If { then_branch, else_branch, .. } => {
            lemma_block_lines_have_spans(then_branch);
            match else_branch {
                Some((_, other)) => {
                    lemma_stmt_expr_lines_have_spans(*other);
                },
                None => {},
            }
        },
        StmtExpr::Block(b) => {
            lemma_block_lines_have_spans(b);
        },
        _ => {},
    }
}

/// Every line of a block carries a source region.
pub proof fn lemma_block_lines_have_spans(b: Block)
    ensures
        lines_have_spans(block_lines(b)),
    decreases b, 0nat,
{
    lemma_stmts_lines_have_spans(b.stmts, b.stmts.len());
}

/// Every line of the first `n` statements carries a source region.
pub proof fn lemma_stmts_lines_have_spans(stmts: Seq<Statement>, n: nat)
    ensures
        lines_have_spans(stmts_lines(stmts, n)),
    decreases stmts, n,
{
    if n == 0 || n > stmts.len() {
    } else {
        lemma_stmts_lines_have_spans(stmts, (n - 1) as nat);
        lemma_stmt_lines_have_spans(stmts[n - 1]);
    }
}

/// Every line of a statement carries a source region.
pub proof fn lemma_stmt_lines_have_spans(s: Statement)
    ensures
        lines_have_spans(stmt_lines(s)),
    decreases s, 0nat,
{
    match s {
        Statement::LocalBinding(_) => {},
        Statement::ExpressionStatement(e) => {
            lemma_stmt_expr_lines_have_spans(e);
        },
        Statement::NestedItem(item) => {
            lemma_item_lines_have_spans(item);
        },
    }
}

/// Every line of an item carries a source region.
pub proof fn lemma_item_lines_have_spans(item: Item)
    ensures
        lines_have_spans(item_lines(item)),
    decreases item, 0nat,
{
    match item {
        Item::Function { body, .. } => {
            lemma_block_lines_have_spans(body);
        },
        _ => {},
    }
}

/// Every line of the first `n` items carries a source region.
pub proof fn lemma_items_lines_have_spans(items: Seq<Item>, n: nat)
    ensures
        lines_have_spans(items_lines(items, n)),
    decreases n,
{
    if n == 0 || n > items.len() {
    } else {
        lemma_items_lines_have_spans(items, (n - 1) as nat);
        lemma_item_lines_have_spans(items[n - 1]);
    }
}

/// Every generated line of a module carries the source region of the
/// construct that produced it: only the preamble and the entry point,
/// which stand outside the source map, are without one.
pub proof fn lemma_module_lines_have_spans(m: Module)
    ensures
        lines_have_spans(module_lines(m)),
{
    lemma_items_lines_have_spans(m.items, m.items.len());
}

} // verus!
