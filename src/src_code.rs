//! Byte ranges of source text.

use vstd::prelude::*;

use crate::uoffset32;

verus! {

/// A half-open byte range `start..end` of a source text.
#[derive(Clone, Copy, Debug, Hash, PartialEq, Eq, Structural)]
pub struct Span {
    /// Inclusive and less than or equal to [`Self::end()`]
    pub(crate) start: uoffset32,
    /// Non inclusive and greater than or equal to [`Self::start()`]
    pub(crate) end: uoffset32,
}

/// A line of source text, as the span of its bytes.
pub type Line = Span;

impl View for Span {
    type V = (uoffset32, uoffset32);

    /// The span's bounds: `(start, end)`.
    closed spec fn view(&self) -> Self::V {
        (self.start, self.end)
    }
}

impl Span {
    /// The span's bounds are in order.
    pub open spec fn wf(self) -> bool {
        self@.0 <= self@.1
    }

    /// The span `start..end`, whose bounds the caller has already checked.
    pub fn new_unchecked(start: uoffset32, end: uoffset32) -> (r: Self)
        requires
            start <= end,
        ensures
            r.wf(),
            r@ == (start, end),
    {
        Self { start, end }
    }

    /// The span `start..end`, or `None` where `start` is past `end`.
    pub fn new(start: uoffset32, end: uoffset32) -> (r: Option<Self>)
        ensures
            r is None <==> start > end,
            r matches Some(s) ==> s.wf() && s@ == (start, end),
    {
        if start > end {
            return None;
        }
        Some(Self { start, end })
    }

    pub fn start(self) -> (r: uoffset32)
        ensures
            r == self@.0,
    {
        self.start
    }

    pub fn end(self) -> (r: uoffset32)
        ensures
            r == self@.1,
    {
        self.end
    }
}

impl Default for Span {
    fn default() -> (r: Self)
        ensures
            r.wf(),
            r@ == (0u32, 0u32),
    {
        Self { start: 0, end: 0 }
    }
}

} // verus!
