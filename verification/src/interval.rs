//! Half-open intervals over byte offsets, and the interval algebra used by
//! the tagged-range engine: overlap test and convex hull ("union").

use vstd::prelude::*;

verus! {

/// A half-open interval `[start, end)` of byte offsets into the buffer.
/// It is *valid* for a buffer of length `len` when `start < end <= len`;
/// intervals may temporarily violate this between an edit and the
/// validation pass that follows it.
#[derive(Clone, Copy, PartialEq, Eq, Structural, Debug)]
pub struct Interval {
    pub start: usize,
    pub end: usize,
}

impl Interval {
    /// An interval selects no bytes when `start >= end`.
    pub open spec fn spec_is_empty(self) -> bool {
        self.start >= self.end
    }

    /// Half-open membership: `start <= p < end`.
    pub open spec fn spec_contains_point(self, p: int) -> bool {
        self.start <= p < self.end
    }

    /// `other` lies entirely within `self`.
    pub open spec fn spec_encloses(self, other: Interval) -> bool {
        self.start <= other.start && other.end <= self.end
    }

    /// Valid against a buffer of length `len`: non-empty and in bounds.
    pub open spec fn spec_valid(self, len: int) -> bool {
        self.start < self.end <= len
    }

    pub fn new(start: usize, end: usize) -> (r: Interval)
        ensures
            r.start == start,
            r.end == end,
    {
        Interval { start, end }
    }

    pub fn is_empty(&self) -> (r: bool)
        ensures
            r == self.spec_is_empty(),
    {
        self.start >= self.end
    }

    /// Does `self` enclose `other` entirely?
    pub fn encloses(&self, other: &Interval) -> (r: bool)
        ensures
            r == self.spec_encloses(*other),
    {
        self.start <= other.start && other.end <= self.end
    }
}

/// The interval algebra: half-open overlap test and convex hull.
pub trait RangeExt: Sized {
    spec fn spec_intersects(&self, other: &Self) -> bool;

    spec fn spec_union(&self, other: &Self) -> Self;

    /// Do the two intervals overlap in at least one point?
    fn intersects(&self, other: &Self) -> (r: bool)
        ensures
            r == self.spec_intersects(other),
    ;

    /// The smallest interval containing both (a convex hull, not a
    /// gap-preserving set union: a tag's extent is one contiguous span).
    fn union(&self, other: &Self) -> (r: Self)
        ensures
            r == self.spec_union(other),
    ;
}

impl RangeExt for Interval {
    /// `a.start < b.end && b.start < a.end`: true iff some byte offset lies
    /// in both half-open intervals (for non-empty intervals).
    open spec fn spec_intersects(&self, other: &Self) -> bool {
        self.start < other.end && other.start < self.end
    }

    open spec fn spec_union(&self, other: &Self) -> Self {
        Interval {
            start: if self.start <= other.start {
                self.start
            } else {
                other.start
            },
            end: if self.end >= other.end {
                self.end
            } else {
                other.end
            },
        }
    }

    fn intersects(&self, other: &Self) -> (r: bool)
        ensures
            r == self.spec_intersects(other),
    {
        self.start < other.end && other.start < self.end
    }

    fn union(&self, other: &Self) -> (r: Self)
        ensures
            r == self.spec_union(other),
    {
        Interval {
            start: if self.start <= other.start {
                self.start
            } else {
                other.start
            },
            end: if self.end >= other.end {
                self.end
            } else {
                other.end
            },
        }
    }
}

/// The overlap test is symmetric: `intersects(a, b) == intersects(b, a)`.
pub proof fn lemma_intersects_symmetric(a: Interval, b: Interval)
    ensures
        a.spec_intersects(&b) == b.spec_intersects(&a),
{
}

/// The hull is commutative: `union(a, b) == union(b, a)`.
pub proof fn lemma_union_commutative(a: Interval, b: Interval)
    ensures
        a.spec_union(&b) == b.spec_union(&a),
{
}

/// The hull's bounds: `union(a, b).start` is the smaller start and
/// `union(a, b).end` the larger end.
pub proof fn lemma_union_bounds(a: Interval, b: Interval)
    ensures
        a.spec_union(&b).start == if a.start <= b.start { a.start } else { b.start },
        a.spec_union(&b).end == if a.end >= b.end { a.end } else { b.end },
        a.spec_union(&b).start <= a.start,
        a.spec_union(&b).start <= b.start,
        a.spec_union(&b).end >= a.end,
        a.spec_union(&b).end >= b.end,
{
}

/// The hull encloses both of its arguments.
pub proof fn lemma_union_encloses(a: Interval, b: Interval)
    ensures
        a.spec_union(&b).spec_encloses(a),
        a.spec_union(&b).spec_encloses(b),
{
}

} // verus!
