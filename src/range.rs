use vstd::prelude::*;

verus! {

/// One end of an index range.
#[derive(Clone, Copy, Debug, PartialEq, Eq, Structural, Hash)]
pub enum Bound {
    Included(usize),
    Excluded(usize),
    Unbounded,
}

/// An index range given by its two ends, as `(Bound, Bound)` in std.
#[derive(Clone, Copy, Debug, PartialEq, Eq, Structural, Hash)]
pub struct IndexRange {
    pub start: Bound,
    pub end: Bound,
}

/// `n + 1`, held at `usize::MAX`.
pub open spec fn succ_saturating(n: usize) -> int {
    if n == usize::MAX {
        n as int
    } else {
        n + 1
    }
}

impl IndexRange {
    /// The first index of the range.
    pub open spec fn start_index(self) -> int {
        match self.start {
            Bound::Included(n) => n as int,
            Bound::Excluded(n) => n + 1,
            Bound::Unbounded => 0,
        }
    }

    /// The index one past the last of the range, in a sequence of length `len`.
    pub open spec fn end_index(self, len: int) -> int {
        match self.end {
            Bound::Included(n) => n + 1,
            Bound::Excluded(n) => n as int,
            Bound::Unbounded => len,
        }
    }

    /// The range lies within a sequence of length `len`, start not after end.
    pub open spec fn is_valid(self, len: int) -> bool {
        0 <= self.start_index() <= self.end_index(len) <= len
    }

    /// How many indices the range counts below `max`, with each `+ 1` and the
    /// final difference held inside `0 ..= usize::MAX`.
    pub open spec fn count_saturating(self, max: usize) -> int {
        let s = match self.start {
            Bound::Included(n) => n as int,
            Bound::Excluded(n) => succ_saturating(n),
            Bound::Unbounded => 0,
        };
        let e = match self.end {
            Bound::Included(n) => succ_saturating(n),
            Bound::Excluded(n) => n as int,
            Bound::Unbounded => max as int,
        };
        if e > s {
            e - s
        } else {
            0
        }
    }
}

/// The number of elements that `range` denotes in a sequence of length `max`,
/// never below zero.
pub fn range_len(range: &IndexRange, max: usize) -> (r: usize)
    ensures
        r == range.count_saturating(max),
        range.is_valid(max as int) ==> r == range.end_index(max as int) - range.start_index(),
{
    let start: usize = match range.start {
        Bound::Included(n) => n,
        Bound::Excluded(n) => n.saturating_add(1),
        Bound::Unbounded => 0,
    };
    let end: usize = match range.end {
        Bound::Included(n) => n.saturating_add(1),
        Bound::Excluded(n) => n,
        Bound::Unbounded => max,
    };
    end.saturating_sub(start)
}

/// The start and end indices of `range` within a sequence of length `len`.
pub(crate) fn slice_range(range: &IndexRange, len: usize) -> (r: (usize, usize))
    requires
        range.is_valid(len as int),
    ensures
        r.0 == range.start_index(),
        r.1 == range.end_index(len as int),
{
    let start: usize = match range.start {
        Bound::Included(n) => n,
        Bound::Excluded(n) => n + 1,
        Bound::Unbounded => 0,
    };
    let end: usize = match range.end {
        Bound::Included(n) => n + 1,
        Bound::Excluded(n) => n,
        Bound::Unbounded => len,
    };
    (start, end)
}

} // verus!
