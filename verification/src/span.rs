//! Regions of the shader source.

use vstd::prelude::*;

verus! {

/// A region of the source, in characters from its start: `start` is the
/// first character of the region, `end` the one after its last.
#[derive(Clone, Copy, Debug, PartialEq, Eq, Structural)]
pub struct Span {
    pub start: usize,
    pub end: usize,
}

impl Span {
    /// The region from `start` up to `end`.
    pub fn new(start: usize, end: usize) -> (s: Span)
        ensures
            s == (Span { start, end }),
    {
        Span { start, end }
    }

    /// The empty region at `at`.
    pub fn point(at: usize) -> (s: Span)
        ensures
            s == (Span { start: at, end: at }),
    {
        Span { start: at, end: at }
    }
}

} // verus!
