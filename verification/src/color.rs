//! Colours: a radiance or reflectance in three channels.

use crate::scalar::{clamped_unit, equal, le, max, min, same, ONE, ZERO};
use vstd::prelude::*;
use vstd::std_specs::cmp::PartialEqSpecImpl;

verus! {

/// A colour. Each channel is a binary64 bit pattern.
#[derive(Copy, Clone, Debug)]
pub struct Color {
    pub r: u64,
    pub g: u64,
    pub b: u64,
}

impl Color {
    /// Whether the two colours are equal channel by channel, in the IEEE
    /// sense: a NaN equals nothing, the two zeros equal each other.
    pub open spec fn same(self, other: Color) -> bool {
        same(self.r, other.r) && same(self.g, other.g) && same(self.b, other.b)
    }

    /// The colour with every channel brought into the unit interval.
    pub open spec fn clamped(self) -> Color {
        Color { r: clamped_unit(self.r), g: clamped_unit(self.g), b: clamped_unit(self.b) }
    }

    /// Whether every channel lies between zero and one, bounds included.
    pub open spec fn in_unit_range(self) -> bool {
        &&& le(ZERO, self.r) && le(self.r, ONE)
        &&& le(ZERO, self.g) && le(self.g, ONE)
        &&& le(ZERO, self.b) && le(self.b, ONE)
    }

    /// The colour with the given channels.
    pub fn new(r: u64, g: u64, b: u64) -> (c: Self)
        ensures
            c == (Color { r, g, b }),
    {
        Self { r, g, b }
    }

    /// The grey with `v` in every channel.
    pub fn rep(v: u64) -> (c: Self)
        ensures
            c == (Color { r: v, g: v, b: v }),
    {
        Self::new(v, v, v)
    }

    /// Each channel clamped to the range from zero to one.
    pub fn clamp(self) -> (c: Self)
        ensures
            c == self.clamped(),
            c.in_unit_range(),
    {
        Self {
            r: min(ONE, max(ZERO, self.r)),
            g: min(ONE, max(ZERO, self.g)),
            b: min(ONE, max(ZERO, self.b)),
        }
    }

    /// Clamping brings every channel into the range from zero to one, and
    /// clamping a second time changes nothing.
    pub proof fn lemma_clamp_idempotent(c: Color)
        ensures
            c.clamped().in_unit_range(),
            c.clamped().clamped() == c.clamped(),
    {
    }
}

impl PartialEq for Color {
    fn eq(&self, other: &Self) -> (r: bool) {
        equal(self.r, other.r) && equal(self.g, other.g) && equal(self.b, other.b)
    }
}

impl PartialEqSpecImpl for Color {
    open spec fn obeys_eq_spec() -> bool {
        true
    }

    open spec fn eq_spec(&self, other: &Self) -> bool {
        self.same(*other)
    }
}

} // verus!
