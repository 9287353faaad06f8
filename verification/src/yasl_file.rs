//! The module: the items of one source, in order.

use vstd::prelude::*;
use crate::yasl_item::{Item, YaslItem, items_view};

verus! {

/// A module as the specifications see it.
pub struct Module {
    pub items: Seq<Item>,
}

impl Module {
    /// No name and no literal of the module holds a line feed.
    pub open spec fn wf(self) -> bool {
        forall|i: int| 0 <= i < self.items.len() ==> (#[trigger] self.items[i]).wf()
    }
}

/// A module: the root of the syntax tree.
#[derive(Debug)]
pub struct YaslFile {
    pub items: Vec<YaslItem>,
}

impl YaslFile {
    pub open spec fn view(&self) -> Module {
        Module { items: items_view(self.items@) }
    }
}

} // verus!
