//! The code generator at work: from the syntax tree to pieces of GLSL.

use vstd::prelude::*;
use vstd::string::*;
use crate::generate::{
    args_text, assign_op_text, assign_text, block_lines, direction_text, expr_text, item_lines,
    items_lines, local_text, module_lines, open_line, params_text, return_text, statement_line,
    stmt_expr_lines, stmt_lines, stmts_lines,
};
use crate::glsl::{GeneratedLine, Glsl, GlslFragment, GlslLine};
use crate::number::to_decimal;
use crate::span::Span;
use crate::yasl_block::YaslBlock;
use crate::yasl_expr::{
    YaslExprAssign, YaslExprAssignOp, YaslExprBinary, YaslExprCall, YaslExprCast, YaslExprField,
    YaslExprFunctionScope, YaslExprIf, YaslExprLineScope, YaslExprLit, YaslExprReturn,
    YaslExprUnary, exprs_view,
};
use crate::yasl_file::YaslFile;
use crate::yasl_item::{
    LayoutKind, YaslItem, YaslItemFn, YaslItemLayout, YaslItemStatic, items_view, params_view,
};
use crate::yasl_stmt::{YaslLocal, YaslStmt, stmts_view};
use crate::yasl_type::YaslType;

verus! {

/// The piece `g` is the expression text `text`.
pub open spec fn is_expr(g: Glsl, text: Seq<char>) -> bool {
    g matches Glsl::Expr(s) && s@ == text
}

/// The piece `g` is made of the lines `lines`.
pub open spec fn is_lines(g: Glsl, lines: Seq<GeneratedLine>) -> bool {
    g.is_line_tree() && g.lines() == lines
}

/// A line that ends in a semicolon.
fn statement(text: String, span: Span) -> (g: Glsl)
    ensures
        is_lines(g, seq![statement_line(text@, span)]),
{
    Glsl::Line(GlslLine { span: Some(span), ends_with_semi: true, glsl_string: text })
}

/// A line that ends without a semicolon.
fn opening(text: String, span: Span) -> (g: Glsl)
    ensures
        is_lines(g, seq![open_line(text@, span)]),
{
    Glsl::Line(GlslLine { span: Some(span), ends_with_semi: false, glsl_string: text })
}

impl YaslExprLit {
    /// The literal as the source writes it.
    pub fn as_glsl(&self) -> (g: Glsl)
        ensures
            is_expr(g, expr_text(self@)),
    {
        Glsl::Expr(self.text.clone())
    }
}

impl YaslExprBinary {
    /// The operands with the operator between them, a space on each side
    /// of it.
    pub fn as_glsl(&self) -> (g: Glsl)
        ensures
            is_expr(g, expr_text(self@)),
        decreases self,
    {
        let mut s = self.left.as_glsl().to_string();
        s.append(" ");
        s.append(self.op.as_str());
        s.append(" ");
        let right = self.right.as_glsl().to_string();
        s.append(right.as_str());
        Glsl::Expr(s)
    }
}

impl YaslExprCall {
    /// The callee, then the arguments between parentheses, a comma between
    /// each two.
    #[verifier::loop_isolation(false)]
    pub fn as_glsl(&self) -> (g: Glsl)
        ensures
            is_expr(g, expr_text(self@)),
        decreases self,
    {
        let mut s = self.ident.to_string();
        s.append("(");
        let ghost head = s@;
        let mut joined = String::new();
        let mut i: usize = 0;
        while i < self.args.len()
            invariant
                0 <= i <= self.args.len(),
                joined@ == args_text(exprs_view(self.args@), i as nat),
            decreases self.args.len() - i,
        {
            if i > 0 {
                joined.append(",");
            }
            let arg = self.args[i].as_glsl().to_string();
            joined.append(arg.as_str());
            assert(Seq::<char>::empty() + arg@ =~= arg@);
            i = i + 1;
        }
        s.append(joined.as_str());
        s.append(")");
        Glsl::Expr(s)
    }
}

impl YaslExprCast {
    /// The GLSL name of the type, then the value between parentheses.
    pub fn as_glsl(&self) -> (g: Glsl)
        ensures
            is_expr(g, expr_text(self@)),
        decreases self,
    {
        let mut s = self.ty.as_glsl();
        s.append("(");
        let inner = self.expr.as_glsl().to_string();
        s.append(inner.as_str());
        s.append(")");
        Glsl::Expr(s)
    }
}

impl YaslExprUnary {
    /// The operator, then its operand.
    pub fn as_glsl(&self) -> (g: Glsl)
        ensures
            is_expr(g, expr_text(self@)),
        decreases self,
    {
        let mut s = String::from_str(self.op.as_str());
        let inner = self.expr.as_glsl().to_string();
        s.append(inner.as_str());
        Glsl::Expr(s)
    }
}

impl YaslExprField {
    /// The value, a dot, and the member as the source writes it.
    pub fn as_glsl(&self) -> (g: Glsl)
        ensures
            is_expr(g, expr_text(self@)),
        decreases self,
    {
        let mut s = self.base.as_glsl().to_string();
        s.append(".");
        s.append(self.member.as_str());
        Glsl::Expr(s)
    }
}

impl YaslExprLineScope {
    /// The text of the value expression.
    pub fn as_glsl(&self) -> (g: Glsl)
        ensures
            is_expr(g, expr_text(self@)),
        decreases self,
    {
        match self {
            YaslExprLineScope::Lit(l) => l.as_glsl(),
            YaslExprLineScope::Binary(b) => b.as_glsl(),
            YaslExprLineScope::Call(c) => c.as_glsl(),
            YaslExprLineScope::Cast(c) => c.as_glsl(),
            YaslExprLineScope::Ident(i) => i.as_glsl(),
            YaslExprLineScope::Unary(u) => u.as_glsl(),
            YaslExprLineScope::Field(f) => f.as_glsl(),
        }
    }
}

impl YaslExprAssign {
    /// The name, ` = `, and the value.
    pub fn as_glsl(&self) -> (g: Glsl)
        ensures
            is_expr(g, assign_text(self.left@, self.right@)),
    {
        let mut s = self.left.to_string();
        s.append(" = ");
        let right = self.right.as_glsl().to_string();
        s.append(right.as_str());
        Glsl::Expr(s)
    }
}

impl YaslExprAssignOp {
    /// The name, the operator with a space on each side, and the value.
    pub fn as_glsl(&self) -> (g: Glsl)
        ensures
            is_expr(g, assign_op_text(self.left@, self.op, self.right@)),
    {
        let mut s = self.left.to_string();
        s.append(" ");
        s.append(self.op.as_str());
        s.append(" ");
        let right = self.right.as_glsl().to_string();
        s.append(right.as_str());
        Glsl::Expr(s)
    }
}

impl YaslExprReturn {
    /// `return `, then the value where there is one.
    pub fn as_glsl(&self) -> (g: Glsl)
        ensures
            is_expr(
                g,
                return_text(
                    match self.expr {
                        Some(e) => Some(e@),
                        None => None,
                    },
                ),
            ),
    {
        let mut s = String::from_str("return ");
        match &self.expr {
            Some(e) => {
                let value = e.as_glsl().to_string();
                s.append(value.as_str());
            },
            None => {
                assert(s@ + Seq::<char>::empty() =~= s@);
            },
        }
        Glsl::Expr(s)
    }
}

impl YaslExprIf {
    /// The head of the conditional on a line of its own, then the block;
    /// where there is an else branch, `else` on a line of its own and the
    /// branch.
    pub fn as_glsl(&self) -> (g: Glsl)
        ensures
            is_lines(g, stmt_expr_lines(self@)),
        decreases self, 0nat,
    {
        let mut head = String::from_str("if(");
        let cond = self.cond.as_glsl().to_string();
        head.append(cond.as_str());
        head.append(")");
        let mut frag = GlslFragment::new();
        frag.push(opening(head, self.span));
        frag.push(self.then_branch.as_glsl());
        match &self.else_branch {
            Some((else_span, other)) => {
                let mut branch = GlslFragment::new();
                branch.push(opening(String::from_str("else"), *else_span));
                branch.push(other.as_glsl());
                frag.push(Glsl::Fragment(branch));
            },
            None => {},
        }
        assert(frag.lines() =~= stmt_expr_lines(self@));
        Glsl::Fragment(frag)
    }
}

impl YaslExprFunctionScope {
    /// The lines of the statement expression: one line, ending in a
    /// semicolon, for a call, an assignment, a return or a value; the
    /// lines of a conditional or of a block.
    pub fn as_glsl(&self) -> (g: Glsl)
        ensures
            is_lines(g, stmt_expr_lines(self@)),
        decreases self, 1nat,
    {
        match self {
            YaslExprFunctionScope::Call(c) => statement(c.as_glsl().to_string(), c.span()),
            YaslExprFunctionScope::Assign(a) => statement(a.as_glsl().to_string(), a.span()),
            YaslExprFunctionScope::AssignOp(a) => statement(a.as_glsl().to_string(), a.span()),
            YaslExprFunctionScope::Return(r) => statement(r.as_glsl().to_string(), r.span()),
            YaslExprFunctionScope::If(i) => i.as_glsl(),
            YaslExprFunctionScope::Block(b) => b.as_glsl(),
            YaslExprFunctionScope::Value(e) => statement(e.as_glsl().to_string(), e.span()),
        }
    }
}

impl YaslBlock {
    /// The opening brace, the lines of the statements, the closing brace;
    /// each brace on a line of its own, at the place of the braces.
    #[verifier::loop_isolation(false)]
    pub fn as_glsl(&self) -> (g: Glsl)
        ensures
            is_lines(g, block_lines(self@)),
        decreases self, 0nat,
    {
        let mut frag = GlslFragment::new();
        frag.push(opening(String::from_str("{"), self.span));
        let ghost first = frag.lines();
        let mut i: usize = 0;
        assert(first + Seq::<GeneratedLine>::empty() =~= first);
        while i < self.stmts.len()
            invariant
                0 <= i <= self.stmts.len(),
                frag.is_line_tree(),
                frag.lines() == first + stmts_lines(stmts_view(self.stmts@), i as nat),
            decreases self.stmts.len() - i,
        {
            let piece = self.stmts[i].as_glsl();
            let ghost before = stmts_lines(stmts_view(self.stmts@), i as nat);
            frag.push(piece);
            assert((first + before) + piece.lines() =~= first + (before + piece.lines()));
            i = i + 1;
        }
        frag.push(opening(String::from_str("}"), self.span));
        Glsl::Fragment(frag)
    }
}

impl YaslLocal {
    /// One line: the type, `void` where the binding has none, the name
    /// and, where there is an initializer, `=` and its text; a space
    /// between each two.
    pub fn as_glsl(&self) -> (g: Glsl)
        ensures
            is_lines(g, seq![statement_line(local_text(self@), self@.ident.span)]),
    {
        let mut s = match self.ty {
            Some(t) => t.as_glsl(),
            None => YaslType::Void.as_glsl(),
        };
        s.append(" ");
        let name = self.ident.to_string();
        s.append(name.as_str());
        s.append(" ");
        match &self.init {
            Some(e) => {
                let mut init = String::from_str("= ");
                let value = e.as_glsl().to_string();
                init.append(value.as_str());
                s.append(init.as_str());
            },
            None => {
                assert(s@ + Seq::<char>::empty() =~= s@);
            },
        }
        statement(s, self.ident.span())
    }
}

impl YaslStmt {
    /// The lines of the statement.
    pub fn as_glsl(&self) -> (g: Glsl)
        ensures
            is_lines(g, stmt_lines(self@)),
        decreases self, 0nat,
    {
        match self {
            YaslStmt::Item(i) => i.as_glsl(),
            YaslStmt::Expr(e) => e.as_glsl(),
            YaslStmt::Local(l) => l.as_glsl(),
        }
    }
}

impl LayoutKind {
    /// The GLSL word for the direction.
    pub fn as_glsl(&self) -> (g: Glsl)
        ensures
            is_expr(g, direction_text(*self)),
    {
        match self {
            LayoutKind::Input => Glsl::Expr(String::from_str("in")),
            LayoutKind::Output => Glsl::Expr(String::from_str("out")),
        }
    }
}

impl YaslItemStatic {
    /// One line: the type, the name, ` = ` and the value.
    pub fn as_glsl(&self) -> (g: Glsl)
        ensures
            is_lines(g, item_lines(self@)),
    {
        let mut s = self.ty.as_glsl();
        s.append(" ");
        let name = self.ident.to_string();
        s.append(name.as_str());
        s.append(" = ");
        let value = self.expr.as_glsl().to_string();
        s.append(value.as_str());
        statement(s, self.ident.span())
    }
}

impl YaslItemLayout {
    /// One line: `layout(location=`, the slot index and `)`, then the
    /// direction, the type and the name.
    pub fn as_glsl(&self) -> (g: Glsl)
        ensures
            is_lines(g, item_lines(self@)),
    {
        let mut s = String::from_str("layout(location=");
        let index = to_decimal(self.pos);
        s.append(index.as_str());
        s.append(") ");
        let direction = self.kind.as_glsl().to_string();
        s.append(direction.as_str());
        s.append(" ");
        let ty = self.ty.as_glsl();
        s.append(ty.as_str());
        s.append(" ");
        let name = self.ident.to_string();
        s.append(name.as_str());
        statement(s, self.ident.span())
    }
}

impl YaslItemFn {
    /// The head of the function on a line of its own: return type, name,
    /// and between parentheses the parameters, each its type and its name,
    /// a comma between each two. Then the lines of the body.
    #[verifier::loop_isolation(false)]
    pub fn as_glsl(&self) -> (g: Glsl)
        ensures
            is_lines(g, item_lines(self@)),
        decreases self, 0nat,
    {
        let mut joined = String::new();
        let mut i: usize = 0;
        while i < self.args.len()
            invariant
                0 <= i <= self.args.len(),
                joined@ == params_text(params_view(self.args@), i as nat),
            decreases self.args.len() - i,
        {
            if i > 0 {
                joined.append(",");
            }
            let mut param = self.args[i].1.as_glsl();
            param.append(" ");
            let name = self.args[i].0.to_string();
            param.append(name.as_str());
            joined.append(param.as_str());
            assert(Seq::<char>::empty() + param@ =~= param@);
            i = i + 1;
        }
        let mut head = self.output.as_glsl();
        head.append(" ");
        let name = self.ident.to_string();
        head.append(name.as_str());
        head.append("(");
        head.append(joined.as_str());
        head.append(")");
        let mut frag = GlslFragment::new();
        frag.push(opening(head, self.ident.span()));
        frag.push(self.block.as_glsl());
        assert(frag.lines() =~= item_lines(self@));
        Glsl::Fragment(frag)
    }
}

impl YaslItem {
    /// The lines of the item.
    pub fn as_glsl(&self) -> (g: Glsl)
        ensures
            is_lines(g, item_lines(self@)),
        decreases self, 1nat,
    {
        match self {
            YaslItem::Static(s) => s.as_glsl(),
            YaslItem::Layout(l) => l.as_glsl(),
            YaslItem::Fn(f) => f.as_glsl(),
        }
    }
}

impl YaslFile {
    /// The lines of the module: those of its items, in order.
    pub fn as_glsl(&self) -> (g: Glsl)
        ensures
            g matches Glsl::Fragment(_),
            is_lines(g, module_lines(self@)),
    {
        let mut frag = GlslFragment::new();
        let mut i: usize = 0;
        while i < self.items.len()
            invariant
                0 <= i <= self.items.len(),
                frag.is_line_tree(),
                frag.lines() == items_lines(items_view(self.items@), i as nat),
            decreases self.items.len() - i,
        {
            let piece = self.items[i].as_glsl();
            frag.push(piece);
            i = i + 1;
        }
        Glsl::Fragment(frag)
    }
}

} // verus!
