//! Integer plane and space vectors, and the truncating division the follow
//! arithmetic is built on.
//!
//! Coordinates are milli-units: one world unit is `1000`. Fractional tuning
//! constants of the behavior (a 0.02 interpolation step, a 3.0-unit centered
//! threshold) become exact integer arithmetic at this scale.

use vstd::arithmetic::div_mod::lemma_div_is_ordered;
use vstd::arithmetic::div_mod::lemma_div_multiples_vanish;
use vstd::arithmetic::div_mod::lemma_div_nonincreasing;
use vstd::arithmetic::div_mod::lemma_div_pos_is_pos;
use vstd::math::abs;
use vstd::prelude::*;

verus! {

/// A 2D vector with milli-unit components.
#[derive(Clone, Copy, Debug, PartialEq, Eq, Structural)]
pub struct IVec2 {
    pub x: i64,
    pub y: i64,
}

/// A 3D vector with milli-unit components.
#[derive(Clone, Copy, Debug, PartialEq, Eq, Structural)]
pub struct IVec3 {
    pub x: i64,
    pub y: i64,
    pub z: i64,
}

impl IVec2 {
    pub fn new(x: i64, y: i64) -> (v: IVec2)
        ensures
            v.x == x,
            v.y == y,
    {
        IVec2 { x, y }
    }
}

impl IVec3 {
    pub fn new(x: i64, y: i64, z: i64) -> (v: IVec3)
        ensures
            v.x == x,
            v.y == y,
            v.z == z,
    {
        IVec3 { x, y, z }
    }

    pub fn zero() -> (v: IVec3)
        ensures
            v.x == 0,
            v.y == 0,
            v.z == 0,
    {
        IVec3 { x: 0, y: 0, z: 0 }
    }
}

/// The quotient of `a` by `b` rounded toward zero, as machine division
/// computes it. Spec-level `/` rounds toward negative infinity on a negative
/// dividend, so the negative case is spelled out.
pub open spec fn tdiv(a: int, b: int) -> int {
    if a >= 0 {
        a / b
    } else {
        -((-a) / b)
    }
}

/// Truncating division on machine integers, matching [`tdiv`] exactly.
pub fn div_trunc(a: i64, b: i64) -> (r: i64)
    requires
        1 <= b,
        i64::MIN < a,
    ensures
        r as int == tdiv(a as int, b as int),
{
    if a >= 0 {
        a / b
    } else {
        -((-a) / b)
    }
}

/// The magnitude of a machine integer, matching the spec-level `abs`.
pub fn abs_i64(a: i64) -> (r: i64)
    requires
        i64::MIN < a,
    ensures
        r as int == abs(a as int),
{
    if a >= 0 {
        a
    } else {
        -a
    }
}

/// Dividing by a positive number cannot grow a magnitude: `|tdiv(a, b)|`
/// stays within every bound `m` on `|a|`, keeps the sign of `a`, and is at
/// most `m / b`.
pub proof fn lemma_tdiv_bounds(a: int, m: int, b: int)
    requires
        1 <= b,
        abs(a) <= m,
    ensures
        abs(tdiv(a, b)) <= m,
        abs(tdiv(a, b)) <= m / b,
        a >= 0 ==> tdiv(a, b) >= 0,
        a <= 0 ==> tdiv(a, b) <= 0,
{
    if a >= 0 {
        lemma_div_pos_is_pos(a, b);
        lemma_div_nonincreasing(a, b);
        lemma_div_is_ordered(a, m, b);
    } else {
        lemma_div_pos_is_pos(-a, b);
        lemma_div_nonincreasing(-a, b);
        lemma_div_is_ordered(-a, m, b);
    }
}

/// Truncating division recovers the cofactor of an exact multiple:
/// `tdiv(k * b, b) == k`.
pub proof fn lemma_tdiv_multiple(k: int, b: int)
    requires
        1 <= b,
    ensures
        tdiv(k * b, b) == k,
{
    if k * b >= 0 {
        lemma_div_multiples_vanish(k, b);
        assert(k * b == b * k) by (nonlinear_arith);
        assert(tdiv(k * b, b) == (b * k) / b);
    } else {
        lemma_div_multiples_vanish(-k, b);
        assert(-(k * b) == b * -k) by (nonlinear_arith);
        assert(tdiv(k * b, b) == -((b * -k) / b));
    }
}

} // verus!
