//! Hit records, and the shape every geometric primitive has.

use crate::bbox::BBox;
use crate::point::Point;
use crate::ray::Ray;
use crate::vector::Vector;
use vstd::prelude::*;

verus! {

/// Where and how a ray met a surface. The hit point is not stored: it is
/// the point of `ray` at the parameter `distance`.
pub struct Intersection {
    pub ray: Ray,
    pub distance: u64,
    pub n: Vector,
    pub uv: Point,
}

impl Intersection {
    /// The record of a hit of `ray` at the parameter `distance`, with the
    /// surface normal `n` and the local coordinate `uv`.
    pub fn new(distance: u64, ray: Ray, n: Vector, uv: Point) -> (r: Self)
        ensures
            r == (Intersection { ray, distance, n, uv }),
    {
        Self { ray, distance, n, uv }
    }

    /// The surface normal at the hit.
    pub fn normal(self) -> (r: Vector)
        ensures
            r == self.n,
    {
        self.n
    }

    /// The hit in the coordinates of the surface.
    pub fn local(self) -> (r: Point)
        ensures
            r == self.uv,
    {
        self.uv
    }
}

/// A geometric shape that rays can be tested against.
pub trait Primitive {
    /// A box that encloses the shape.
    fn get_bounds() -> BBox;

    /// The hit of `ray` on the shape, if there is one. A shape may give up
    /// on a hit beyond `previous_best_distance`, the parameter of the
    /// closest hit found so far.
    fn intersect(ray: Ray, previous_best_distance: u64) -> Option<Intersection>;
}

} // verus!
