//! Points: positions in space.

use crate::scalar::{equal, max, max_of, min, min_of, same};
use vstd::prelude::*;
use vstd::std_specs::cmp::PartialEqSpecImpl;

verus! {

/// A position in space. Each coordinate is a binary64 bit pattern.
#[derive(Copy, Clone, Debug)]
pub struct Point {
    pub x: u64,
    pub y: u64,
    pub z: u64,
}

impl Point {
    /// Whether the two points are equal coordinate by coordinate, in the
    /// IEEE sense: a NaN equals nothing, the two zeros equal each other.
    pub open spec fn same(self, other: Point) -> bool {
        same(self.x, other.x) && same(self.y, other.y) && same(self.z, other.z)
    }

    /// The point whose coordinates are the lesser ones of `self` and `other`.
    pub open spec fn min_of(self, other: Point) -> Point {
        Point {
            x: min_of(self.x, other.x),
            y: min_of(self.y, other.y),
            z: min_of(self.z, other.z),
        }
    }

    /// The point whose coordinates are the greater ones of `self` and `other`.
    pub open spec fn max_of(self, other: Point) -> Point {
        Point {
            x: max_of(self.x, other.x),
            y: max_of(self.y, other.y),
            z: max_of(self.z, other.z),
        }
    }

    /// The point with the given coordinates.
    pub fn new(x: u64, y: u64, z: u64) -> (r: Self)
        ensures
            r == (Point { x, y, z }),
    {
        Self { x, y, z }
    }

    /// The point with `v` in every coordinate.
    pub fn rep(v: u64) -> (r: Self)
        ensures
            r == (Point { x: v, y: v, z: v }),
    {
        Self::new(v, v, v)
    }

    /// The lesser coordinate on each axis.
    pub fn min(self, other: Self) -> (r: Self)
        ensures
            r == self.min_of(other),
    {
        Self {
            x: min(self.x, other.x),
            y: min(self.y, other.y),
            z: min(self.z, other.z),
        }
    }

    /// The greater coordinate on each axis.
    pub fn max(self, other: Self) -> (r: Self)
        ensures
            r == self.max_of(other),
    {
        Self {
            x: max(self.x, other.x),
            y: max(self.y, other.y),
            z: max(self.z, other.z),
        }
    }
}

impl PartialEq for Point {
    fn eq(&self, other: &Self) -> (r: bool) {
        equal(self.x, other.x) && equal(self.y, other.y) && equal(self.z, other.z)
    }
}

impl PartialEqSpecImpl for Point {
    open spec fn obeys_eq_spec() -> bool {
        true
    }

    open spec fn eq_spec(&self, other: &Self) -> bool {
        self.same(*other)
    }
}

} // verus!
