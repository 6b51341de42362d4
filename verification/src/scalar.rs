//! Scalars of the kernel: IEEE-754 binary64 values held as their 64-bit
//! patterns. Sign, classification and ordering are exact integer
//! computations on the pattern.

use vstd::prelude::*;

verus! {

/// The sign bit.
pub const SIGN_BIT: u64 = 0x8000_0000_0000_0000u64;

/// Pattern of positive infinity; every larger magnitude is a NaN.
pub const INFINITY: u64 = 0x7ff0_0000_0000_0000u64;

/// Pattern of negative infinity.
pub const NEG_INFINITY: u64 = 0xfff0_0000_0000_0000u64;

/// Pattern of `0.0`.
pub const ZERO: u64 = 0u64;

/// Pattern of `1.0`.
pub const ONE: u64 = 0x3ff0_0000_0000_0000u64;

/// Pattern of the largest finite value.
pub const MAX: u64 = 0x7fef_ffff_ffff_ffffu64;

/// Pattern of the negative of the largest finite value.
pub const NEG_MAX: u64 = 0xffef_ffff_ffff_ffffu64;

/// Pattern of the negative of the smallest positive normal value.
pub const NEG_MIN_POSITIVE: u64 = 0x8010_0000_0000_0000u64;

/// Whether the sign bit of `s` is set.
pub open spec fn sign_negative(s: u64) -> bool {
    s >= SIGN_BIT
}

/// The pattern of `s` with its sign bit cleared.
pub open spec fn magnitude(s: u64) -> u64 {
    if s >= SIGN_BIT {
        (s - SIGN_BIT) as u64
    } else {
        s
    }
}

/// Whether `s` is a NaN.
pub open spec fn nan(s: u64) -> bool {
    magnitude(s) > INFINITY
}

/// The position of a non-NaN `s` on the number line: an integer that grows
/// with the value `s` stands for. Both zeros are at 0.
pub open spec fn rank(s: u64) -> int {
    if sign_negative(s) {
        -(magnitude(s) as int)
    } else {
        magnitude(s) as int
    }
}

/// IEEE `<`: false as soon as one side is a NaN.
pub open spec fn lt(a: u64, b: u64) -> bool {
    !nan(a) && !nan(b) && rank(a) < rank(b)
}

/// IEEE `<=`: false as soon as one side is a NaN.
pub open spec fn le(a: u64, b: u64) -> bool {
    !nan(a) && !nan(b) && rank(a) <= rank(b)
}

/// IEEE `==`: false as soon as one side is a NaN; the two zeros are equal.
pub open spec fn same(a: u64, b: u64) -> bool {
    !nan(a) && !nan(b) && rank(a) == rank(b)
}

/// A total order on all patterns that refines `rank`: negative zero comes
/// directly before positive zero, and the NaNs come last, in the order of
/// their patterns.
pub open spec fn position(s: u64) -> int {
    if nan(s) {
        0x8000_0000_0000_0000 + s as int
    } else if sign_negative(s) {
        -(magnitude(s) as int) - 1
    } else {
        magnitude(s) as int
    }
}

/// The mirror image of `position`: the NaNs come first.
pub open spec fn position_rev(s: u64) -> int {
    if nan(s) {
        -0x8000_0000_0000_0000 - (s as int) - 1
    } else {
        position(s)
    }
}

/// The lesser of two scalars. A NaN loses against a number; of the two zeros
/// the negative one is the lesser; of two NaNs the one with the smaller
/// pattern is returned.
pub open spec fn min_of(a: u64, b: u64) -> u64 {
    if position(b) < position(a) {
        b
    } else {
        a
    }
}

/// The greater of two scalars. A NaN loses against a number; of the two
/// zeros the positive one is the greater; of two NaNs the one with the
/// smaller pattern is returned.
pub open spec fn max_of(a: u64, b: u64) -> u64 {
    if position_rev(b) > position_rev(a) {
        b
    } else {
        a
    }
}

/// The pattern of `s` with its sign bit flipped.
pub open spec fn negated(s: u64) -> u64 {
    if s >= SIGN_BIT {
        (s - SIGN_BIT) as u64
    } else {
        (s + SIGN_BIT) as u64
    }
}

/// `s` brought into the unit interval: `max` against zero, then `min`
/// against one. A NaN becomes zero.
pub open spec fn clamped_unit(s: u64) -> u64 {
    min_of(ONE, max_of(ZERO, s))
}

/// Whether `s` is a NaN.
pub fn is_nan(s: u64) -> (r: bool)
    ensures
        r == nan(s),
{
    let m: u64 = if s >= SIGN_BIT { s - SIGN_BIT } else { s };
    m > INFINITY
}

/// Sign and magnitude of `s` as one signed integer, both zeros at 0.
fn rank_of(s: u64) -> (r: i64)
    ensures
        r == rank(s),
{
    if s >= SIGN_BIT {
        let m: u64 = s - SIGN_BIT;
        0i64 - (m as i64)
    } else {
        s as i64
    }
}

/// IEEE `a < b`.
pub fn less(a: u64, b: u64) -> (r: bool)
    ensures
        r == lt(a, b),
{
    !is_nan(a) && !is_nan(b) && rank_of(a) < rank_of(b)
}

/// IEEE `a > b`.
pub fn greater(a: u64, b: u64) -> (r: bool)
    ensures
        r == lt(b, a),
{
    less(b, a)
}

/// IEEE `a == b`.
pub fn equal(a: u64, b: u64) -> (r: bool)
    ensures
        r == same(a, b),
{
    !is_nan(a) && !is_nan(b) && rank_of(a) == rank_of(b)
}

/// `-s`: the sign bit flipped, whatever `s` is.
pub fn neg(s: u64) -> (r: u64)
    ensures
        r == negated(s),
{
    if s >= SIGN_BIT {
        s - SIGN_BIT
    } else {
        s + SIGN_BIT
    }
}

/// Whether `b` comes before `a` in the order of `position`.
fn before(b: u64, a: u64) -> (r: bool)
    ensures
        r == (position(b) < position(a)),
{
    let na = is_nan(a);
    let nb = is_nan(b);
    if na || nb {
        if na && nb {
            b < a
        } else {
            na
        }
    } else {
        let ra: i64 = rank_of(a);
        let rb: i64 = rank_of(b);
        if rb == ra {
            b >= SIGN_BIT && a < SIGN_BIT
        } else {
            rb < ra
        }
    }
}

/// The lesser of `a` and `b`.
pub fn min(a: u64, b: u64) -> (r: u64)
    ensures
        r == min_of(a, b),
{
    if before(b, a) {
        b
    } else {
        a
    }
}

/// The greater of `a` and `b`.
pub fn max(a: u64, b: u64) -> (r: u64)
    ensures
        r == max_of(a, b),
{
    let na = is_nan(a);
    let nb = is_nan(b);
    if na || nb {
        if na && nb {
            if b < a { b } else { a }
        } else if na {
            b
        } else {
            a
        }
    } else if before(a, b) {
        b
    } else {
        a
    }
}

} // verus!
