use std::ops::Range;
use vstd::prelude::*;

verus! {

/// A contiguous region of a collection, given as its first index and its
/// number of elements.
#[derive(Clone, Copy, Debug, PartialEq, Eq, Structural)]
pub struct NSRange {
    pub location: usize,
    pub length: usize,
}

impl NSRange {
    /// The index one past the last element of the region.
    pub open spec fn spec_end(self) -> int {
        self.location + self.length
    }

    /// The region that starts at `location` and holds `length` elements.
    pub fn new(location: usize, length: usize) -> (r: NSRange)
        ensures
            r.location == location,
            r.length == length,
    {
        NSRange { location, length }
    }

    /// The region of the half-open range `start..end`; `None` when `end`
    /// lies before `start`.
    pub fn from_range(range: Range<usize>) -> (r: Option<NSRange>)
        ensures
            range.end < range.start <==> r is None,
            r matches Some(n) ==> n.location == range.start && n.length == range.end - range.start,
    {
        if range.end < range.start {
            None
        } else {
            Some(NSRange { location: range.start, length: range.end - range.start })
        }
    }

    /// The half-open range `location..location + length`; `None` when its end
    /// does not fit in a `usize`.
    pub fn as_range(&self) -> (r: Option<Range<usize>>)
        ensures
            self.spec_end() > usize::MAX <==> r is None,
            r matches Some(rg) ==> rg.start == self.location && rg.end == self.spec_end(),
    {
        if self.length > usize::MAX - self.location {
            None
        } else {
            Some(self.location..self.location + self.length)
        }
    }
}

} // verus!
