//! Items: constants, interface slots and functions.

use vstd::prelude::*;
use crate::yasl_block::{Block, YaslBlock};
use crate::yasl_expr::{ValueExpr, YaslExprLineScope};
use crate::yasl_ident::{Identifier, YaslIdent};
use crate::yasl_type::YaslType;

verus! {

/// The direction of an interface slot.
#[derive(Clone, Copy, Debug, PartialEq, Eq, Structural)]
pub enum LayoutKind {
    Input,
    Output,
}

/// An item as the specifications see it.
pub enum Item {
    Function { ident: Identifier, params: Seq<(Identifier, YaslType)>, output: YaslType, body: Block },
    StaticConst { ident: Identifier, ty: YaslType, init: ValueExpr },
    InterfaceSlot { direction: LayoutKind, slot_index: usize, ident: Identifier, ty: YaslType },
}

impl Item {
    /// No name and no literal of the item holds a line feed.
    pub open spec fn wf(self) -> bool
        decreases self,
    {
        match self {
            Item::Function { ident, params, body, .. } => ident.wf() && body.wf() && forall|
                i: int,
            | 0 <= i < params.len() ==> (#[trigger] params[i]).0.wf(),
            Item::StaticConst { ident, init, .. } => ident.wf() && init.wf(),
            Item::InterfaceSlot { ident, .. } => ident.wf(),
        }
    }

    /// The name of the item.
    pub open spec fn ident(self) -> Identifier {
        match self {
            Item::Function { ident, .. } => ident,
            Item::StaticConst { ident, .. } => ident,
            Item::InterfaceSlot { ident, .. } => ident,
        }
    }
}

/// A constant: `static NAME: Type = value;`.
#[derive(Debug)]
pub struct YaslItemStatic {
    pub ident: YaslIdent,
    pub ty: YaslType,
    pub expr: YaslExprLineScope,
}

/// An interface slot: `layout<input, 0> name: Type;`.
#[derive(Debug)]
pub struct YaslItemLayout {
    pub kind: LayoutKind,
    pub pos: usize,
    pub ident: YaslIdent,
    pub ty: YaslType,
}

/// A function.
#[derive(Debug)]
pub struct YaslItemFn {
    pub ident: YaslIdent,
    pub args: Vec<(YaslIdent, YaslType)>,
    pub output: YaslType,
    pub block: YaslBlock,
}

/// An item.
#[derive(Debug)]
pub enum YaslItem {
    Static(YaslItemStatic),
    Layout(YaslItemLayout),
    Fn(YaslItemFn),
}

/// The parameters that a vector of them stands for.
pub open spec fn params_view(v: Seq<(YaslIdent, YaslType)>) -> Seq<(Identifier, YaslType)> {
    Seq::new(v.len(), |i: int| (v[i].0@, v[i].1))
}

/// The items that a vector of them stands for.
pub open spec fn items_view(v: Seq<YaslItem>) -> Seq<Item>
    decreases v,
{
    Seq::new(
        v.len(),
        |i: int|
            if 0 <= i < v.len() {
                v[i].view()
            } else {
                arbitrary()
            },
    )
}

impl YaslItemStatic {
    pub open spec fn view(&self) -> Item {
        Item::StaticConst { ident: self.ident@, ty: self.ty, init: self.expr@ }
    }
}

impl YaslItemLayout {
    pub open spec fn view(&self) -> Item {
        Item::InterfaceSlot {
            direction: self.kind,
            slot_index: self.pos,
            ident: self.ident@,
            ty: self.ty,
        }
    }
}

impl YaslItemFn {
    pub open spec fn view(&self) -> Item
        decreases self,
    {
        Item::Function {
            ident: self.ident@,
            params: params_view(self.args@),
            output: self.output,
            body: self.block.view(),
        }
    }
}

impl YaslItem {
    pub open spec fn view(&self) -> Item
        decreases self,
    {
        match self {
            YaslItem::Static(s) => s@,
            YaslItem::Layout(l) => l@,
            YaslItem::Fn(f) => f.view(),
        }
    }
}

impl From<YaslItemLayout> for YaslItem {
    fn from(layout: YaslItemLayout) -> (r: YaslItem) {
        YaslItem::Layout(layout)
    }
}

impl vstd::std_specs::convert::FromSpecImpl<YaslItemLayout> for YaslItem {
    open spec fn obeys_from_spec() -> bool {
        true
    }

    open spec fn from_spec(layout: YaslItemLayout) -> YaslItem {
        YaslItem::Layout(layout)
    }
}

/// The view of a vector with one more item is the view of the vector with
/// the view of the item added.
pub proof fn lemma_items_view_push(v: Seq<YaslItem>, i: YaslItem)
    ensures
        items_view(v.push(i)) == items_view(v).push(i@),
{
    assert(items_view(v.push(i)) =~= items_view(v).push(i@));
}

} // verus!
