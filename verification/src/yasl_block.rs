//! Blocks: statements between braces.

use vstd::prelude::*;
use crate::span::Span;
use crate::yasl_stmt::{Statement, YaslStmt, stmts_view};

verus! {

/// A block as the specifications see it.
pub struct Block {
    /// The place of the braces.
    pub span: Span,
    pub stmts: Seq<Statement>,
}

impl Block {
    /// No name and no literal in the block holds a line feed.
    pub open spec fn wf(self) -> bool
        decreases self,
    {
        forall|i: int| 0 <= i < self.stmts.len() ==> (#[trigger] self.stmts[i]).wf()
    }
}

/// A block. `span` is the place of its braces.
#[derive(Debug)]
pub struct YaslBlock {
    pub span: Span,
    pub stmts: Vec<YaslStmt>,
}

impl YaslBlock {
    pub open spec fn view(&self) -> Block
        decreases self,
    {
        Block { span: self.span, stmts: stmts_view(self.stmts@) }
    }
}

} // verus!
