//! Rays: a parametric line through an origin.

use crate::point::Point;
use crate::vector::Vector;
use vstd::prelude::*;
use vstd::std_specs::cmp::PartialEqSpecImpl;

verus! {

/// A ray from the origin `o` along the direction `d`. The direction is kept
/// as given: it need not have unit length, and may be zero.
#[derive(Copy, Clone, Debug)]
pub struct Ray {
    pub o: Point,
    pub d: Vector,
}

impl Ray {
    /// Whether origin and direction are equal in the IEEE sense.
    pub open spec fn same(self, other: Ray) -> bool {
        self.o.same(other.o) && self.d.same(other.d)
    }

    /// The ray from `o` along `d`, both stored as they are.
    pub fn new(o: Point, d: Vector) -> (r: Self)
        ensures
            r == (Ray { o, d }),
    {
        Self { o, d }
    }
}

impl PartialEq for Ray {
    fn eq(&self, other: &Self) -> (r: bool) {
        self.o == other.o && self.d == other.d
    }
}

impl PartialEqSpecImpl for Ray {
    open spec fn obeys_eq_spec() -> bool {
        true
    }

    open spec fn eq_spec(&self, other: &Self) -> bool {
        self.same(*other)
    }
}

} // verus!
