//! Fixed-point scalars: an `i64` that counts millionths of a unit.

use vstd::prelude::*;

verus! {

/// The fixed-point representation of one whole unit.
pub const UNIT: i64 = 1_000_000;

/// `v` brought into the range of `i64`.
pub open spec fn saturate(v: int) -> int {
    if v < i64::MIN as int {
        i64::MIN as int
    } else if v > i64::MAX as int {
        i64::MAX as int
    } else {
        v
    }
}

/// The size of `v`, whatever its sign.
pub open spec fn magnitude(v: int) -> int {
    if v < 0 {
        -v
    } else {
        v
    }
}

/// Whether `v` is a fixed-point number that an `i64` holds.
pub open spec fn representable(v: int) -> bool {
    i64::MIN as int <= v <= i64::MAX as int
}

/// The product of two fixed-point numbers as a fixed-point number, rounded
/// toward zero.
pub open spec fn scaled_product(a: int, b: int) -> int {
    let p = a * b;
    if p >= 0 {
        p / (UNIT as int)
    } else {
        -((-p) / (UNIT as int))
    }
}

/// A velocity component after a reflection: its sign flipped and its size
/// scaled by `elasticity`.
pub open spec fn reflect(elasticity: int, v: int) -> int {
    saturate(-scaled_product(elasticity, v))
}

/// Narrows a wide intermediate result to `i64`, saturating at its limits.
pub fn saturating(v: i128) -> (r: i64)
    ensures
        r as int == saturate(v as int),
{
    if v < i64::MIN as i128 {
        i64::MIN
    } else if v > i64::MAX as i128 {
        i64::MAX
    } else {
        v as i64
    }
}

/// The sum of two fixed-point numbers, saturating at the limits of `i64`.
pub fn saturating_sum(a: i64, b: i64) -> (r: i64)
    ensures
        r as int == saturate(a + b),
{
    saturating(a as i128 + b as i128)
}

/// The difference of two fixed-point numbers, saturating at the limits of `i64`.
pub fn saturating_difference(a: i64, b: i64) -> (r: i64)
    ensures
        r as int == saturate(a - b),
{
    saturating(a as i128 - b as i128)
}

/// Reflects the velocity component `v`: the result is `-elasticity * v` in
/// fixed-point arithmetic.
pub fn rebound(elasticity: i64, v: i64) -> (r: i64)
    ensures
        r as int == reflect(elasticity as int, v as int),
{
    let e: i128 = elasticity as i128;
    let w: i128 = v as i128;
    assert(-0x4000_0000_0000_0000_0000_0000_0000_0000 <= e * w
        <= 0x4000_0000_0000_0000_0000_0000_0000_0000) by (nonlinear_arith)
        requires
            -0x8000_0000_0000_0000 <= e <= 0x8000_0000_0000_0000,
            -0x8000_0000_0000_0000 <= w <= 0x8000_0000_0000_0000,
    ;
    let p: i128 = e * w;
    let q: i128 = if p >= 0 {
        p / (UNIT as i128)
    } else {
        -((-p) / (UNIT as i128))
    };
    assert(q as int == scaled_product(elasticity as int, v as int));
    saturating(-q)
}

} // verus!
