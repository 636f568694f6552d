//! Half-open byte ranges of the source text.

use vstd::prelude::*;

verus! {

/// The range `start..end` of byte offsets into the source text.
#[derive(Clone, Copy, Debug, PartialEq, Eq, Structural)]
pub struct Span {
    pub start: u32,
    pub end: u32,
}

impl Span {
    /// A span is well formed when it does not end before it starts.
    pub open spec fn wf(&self) -> bool {
        self.start <= self.end
    }

    /// The span from `start` to `end`.
    pub fn new(start: u32, end: u32) -> (span: Span)
        requires
            start <= end,
        ensures
            span.start == start,
            span.end == end,
            span.wf(),
    {
        Span { start, end }
    }

    /// The offset at which the span begins.
    pub fn start(&self) -> (offset: u32)
        ensures
            offset == self.start,
    {
        self.start
    }

    /// The offset just past the last byte of the span.
    pub fn end(&self) -> (offset: u32)
        ensures
            offset == self.end,
    {
        self.end
    }
}

} // verus!
