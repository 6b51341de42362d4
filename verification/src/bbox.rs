//! Axis-aligned bounding boxes and the folding step of the slab test.

use crate::point::Point;
use crate::scalar::{
    equal, greater, lt, max, max_of, min, min_of, nan, same, INFINITY, MAX, NEG_INFINITY,
    NEG_MAX, NEG_MIN_POSITIVE,
};
use vstd::prelude::*;

verus! {

/// An axis-aligned box between the corners `min` and `max`. A box may be
/// empty (`min` above `max` on some axis) or unbounded (a coordinate at a
/// sentinel).
pub struct BBox {
    pub min: Point,
    pub max: Point,
}

/// The parameter at which a ray enters a box, from the two plane crossings
/// on each axis: the greatest of the three lesser crossings.
pub open spec fn entry_of(x0: u64, x1: u64, y0: u64, y1: u64, z0: u64, z1: u64) -> u64 {
    max_of(max_of(min_of(x0, x1), min_of(y0, y1)), min_of(z0, z1))
}

/// The parameter at which a ray leaves a box, from the two plane crossings
/// on each axis: the least of the three greater crossings.
pub open spec fn exit_of(x0: u64, x1: u64, y0: u64, y1: u64, z0: u64, z1: u64) -> u64 {
    min_of(min_of(max_of(x0, x1), max_of(y0, y1)), max_of(z0, z1))
}

/// The interval of ray parameters inside a box, from the parameters at
/// which the ray crosses the two bounding planes of each axis. The two
/// crossings of an axis may come in either order. The ray meets the box
/// exactly when the first bound is not above the second.
pub fn slab_interval(x0: u64, x1: u64, y0: u64, y1: u64, z0: u64, z1: u64) -> (r: (u64, u64))
    ensures
        r.0 == entry_of(x0, x1, y0, y1, z0, z1),
        r.1 == exit_of(x0, x1, y0, y1, z0, z1),
{
    let tx0 = min(x0, x1);
    let tx1 = max(x0, x1);
    let ty0 = min(y0, y1);
    let ty1 = max(y0, y1);
    let tz0 = min(z0, z1);
    let tz1 = max(z0, z1);
    (max(max(tx0, ty0), tz0), min(min(tx1, ty1), tz1))
}

impl BBox {
    /// The value of the empty box.
    pub open spec fn empty_box() -> BBox {
        BBox {
            min: Point { x: MAX, y: MAX, z: MAX },
            max: Point { x: NEG_MAX, y: NEG_MAX, z: NEG_MAX },
        }
    }

    /// The box grown to enclose `other`.
    pub open spec fn extended(self, other: BBox) -> BBox {
        BBox { min: self.min.min_of(other.min), max: self.max.max_of(other.max) }
    }

    /// Whether growing the box by the corners `lo` and `hi` would leave both
    /// of its corners equal, in the IEEE sense, to what they are.
    pub open spec fn encloses(self, lo: Point, hi: Point) -> bool {
        self.min.min_of(lo).same(self.min) && self.max.max_of(hi).same(self.max)
    }

    /// Whether the lower bound is above the upper bound on some axis.
    pub open spec fn empty_on_some_axis(self) -> bool {
        lt(self.max.x, self.min.x) || lt(self.max.y, self.min.y) || lt(self.max.z, self.min.z)
    }

    /// Whether an upper bound equals the largest finite value, or a lower
    /// bound equals the negative of the smallest positive normal value.
    pub open spec fn touches_sentinel(self) -> bool {
        same(self.max.x, MAX) || same(self.max.y, MAX) || same(self.max.z, MAX)
            || same(self.min.x, NEG_MIN_POSITIVE) || same(self.min.y, NEG_MIN_POSITIVE)
            || same(self.min.z, NEG_MIN_POSITIVE)
    }

    /// Whether the box lies within the sentinels of the empty box: no lower
    /// bound is a NaN or positive infinity, and no upper bound is a NaN or
    /// negative infinity.
    pub open spec fn within_sentinels(self) -> bool {
        &&& !nan(self.min.x) && self.min.x != INFINITY
        &&& !nan(self.min.y) && self.min.y != INFINITY
        &&& !nan(self.min.z) && self.min.z != INFINITY
        &&& !nan(self.max.x) && self.max.x != NEG_INFINITY
        &&& !nan(self.max.y) && self.max.y != NEG_INFINITY
        &&& !nan(self.max.z) && self.max.z != NEG_INFINITY
    }

    /// The box between the two corners, stored as they are.
    pub fn new(min: Point, max: Point) -> (r: Self)
        ensures
            r == (BBox { min, max }),
    {
        Self { min, max }
    }

    /// The empty box, with every lower bound at the largest finite value and
    /// every upper bound at its negative.
    pub fn empty() -> (r: Self)
        ensures
            r == Self::empty_box(),
    {
        Self::new(Point::rep(MAX), Point::rep(NEG_MAX))
    }

    /// The box that spans every finite coordinate.
    pub fn full() -> (r: Self)
        ensures
            r == (BBox {
                min: Point { x: NEG_MAX, y: NEG_MAX, z: NEG_MAX },
                max: Point { x: MAX, y: MAX, z: MAX },
            }),
    {
        Self::new(Point::rep(NEG_MAX), Point::rep(MAX))
    }

    /// Grows the box so that it encloses `other` too.
    pub fn extend(&mut self, other: BBox)
        ensures
            *final(self) == old(self).extended(other),
    {
        self.min = Point::min(self.min, other.min);
        self.max = Point::max(self.max, other.max);
    }

    /// Whether the box reaches a sentinel.
    pub fn is_unbound(self) -> (r: bool)
        ensures
            r == self.touches_sentinel(),
    {
        equal(self.max.x, MAX) || equal(self.max.y, MAX) || equal(self.max.z, MAX)
            || equal(self.min.x, NEG_MIN_POSITIVE) || equal(self.min.y, NEG_MIN_POSITIVE)
            || equal(self.min.z, NEG_MIN_POSITIVE)
    }

    /// Whether `other` lies inside the box.
    pub fn contains(self, other: BBox) -> (r: bool)
        ensures
            r == self.encloses(other.min, other.max),
    {
        Point::min(self.min, other.min) == self.min && Point::max(self.max, other.max)
            == self.max
    }

    /// Whether `p` lies inside the box.
    pub fn contains_point(self, p: Point) -> (r: bool)
        ensures
            r == self.encloses(p, p),
    {
        Point::min(self.min, p) == self.min && Point::max(self.max, p) == self.max
    }

    /// Whether the box encloses nothing.
    pub fn is_empty(self) -> (r: bool)
        ensures
            r == self.empty_on_some_axis(),
    {
        greater(self.min.x, self.max.x) || greater(self.min.y, self.max.y) || greater(
            self.min.z,
            self.max.z,
        )
    }

    /// Growing a box by another gives the same box whichever of the two is
    /// grown.
    pub proof fn lemma_extend_commutative(a: BBox, b: BBox)
        ensures
            a.extended(b) == b.extended(a),
    {
    }

    /// Growing a box by two others gives the same box however the three are
    /// grouped.
    pub proof fn lemma_extend_associative(a: BBox, b: BBox, c: BBox)
        ensures
            a.extended(b).extended(c) == a.extended(b.extended(c)),
    {
    }

    /// The empty box is the identity of growing, on either side, exactly for
    /// the boxes that lie within the sentinels.
    pub proof fn lemma_extend_empty_identity(a: BBox)
        ensures
            a.within_sentinels() <==> a.extended(Self::empty_box()) == a,
            a.within_sentinels() <==> Self::empty_box().extended(a) == a,
    {
    }
}

} // verus!
