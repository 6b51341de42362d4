//! Free vectors: a direction with a magnitude.

use crate::scalar::{equal, neg, negated, same};
use vstd::prelude::*;
use vstd::std_specs::cmp::PartialEqSpecImpl;
use vstd::std_specs::ops::NegSpecImpl;

verus! {

/// A displacement in space. Each component is a binary64 bit pattern.
#[derive(Copy, Clone, Debug)]
pub struct Vector {
    pub x: u64,
    pub y: u64,
    pub z: u64,
}

impl Vector {
    /// Whether the two vectors are equal component by component, in the
    /// IEEE sense: a NaN equals nothing, the two zeros equal each other.
    pub open spec fn same(self, other: Vector) -> bool {
        same(self.x, other.x) && same(self.y, other.y) && same(self.z, other.z)
    }

    /// The vector with every component's sign flipped.
    pub open spec fn negated(self) -> Vector {
        Vector { x: negated(self.x), y: negated(self.y), z: negated(self.z) }
    }

    /// The vector with the given components.
    pub fn new(x: u64, y: u64, z: u64) -> (r: Self)
        ensures
            r == (Vector { x, y, z }),
    {
        Self { x, y, z }
    }

    /// The vector with `v` in every component.
    pub fn rep(v: u64) -> (r: Self)
        ensures
            r == (Vector { x: v, y: v, z: v }),
    {
        Self::new(v, v, v)
    }

    /// The components in the order x, y, z.
    pub fn components(&self) -> (r: Vec<u64>)
        ensures
            r@ == seq![self.x, self.y, self.z],
    {
        let mut r: Vec<u64> = Vec::new();
        r.push(self.x);
        r.push(self.y);
        r.push(self.z);
        r
    }
}

impl PartialEq for Vector {
    fn eq(&self, other: &Self) -> (r: bool) {
        equal(self.x, other.x) && equal(self.y, other.y) && equal(self.z, other.z)
    }
}

impl PartialEqSpecImpl for Vector {
    open spec fn obeys_eq_spec() -> bool {
        true
    }

    open spec fn eq_spec(&self, other: &Self) -> bool {
        self.same(*other)
    }
}

impl core::ops::Neg for Vector {
    type Output = Vector;

    fn neg(self) -> (r: Vector) {
        Vector { x: neg(self.x), y: neg(self.y), z: neg(self.z) }
    }
}

impl NegSpecImpl for Vector {
    open spec fn obeys_neg_spec() -> bool {
        true
    }

    open spec fn neg_req(self) -> bool {
        true
    }

    open spec fn neg_spec(self) -> Vector {
        self.negated()
    }
}

} // verus!
