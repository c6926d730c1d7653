//! Fixed-point scalar conventions shared by the whole crate.
//!
//! Every geometric quantity is an `i64`. Physical distances (pixel
//! coordinates, sizes, radii, stop positions) are plain integers in whatever
//! sub-pixel unit the caller works in. Dimensionless fractions (anchors,
//! percentages, scale factors, interpolation hints) are expressed in
//! thousandths: `FRACTION_ONE` stands for `1.0`, so an anchor of one half is
//! `500` and a device scale factor of `1.5` is `1500`. Angles are expressed
//! in thousandths of a degree, so a full turn is `FULL_TURN`.
//!
//! Divisions round toward negative infinity (floor), which keeps every
//! quotient consistent with mathematical integer division in the contracts.

use vstd::prelude::*;

verus! {

/// The fixed-point representation of the fraction `1.0`.
pub const FRACTION_ONE: i64 = 1000;

/// A full turn, in thousandths of a degree.
pub const FULL_TURN: i64 = 360_000;

/// Largest magnitude accepted for a physical distance (size, pixel length,
/// stop position, total gradient extent). Keeps every product taken with a
/// fraction inside `i64`.
pub const COORD_LIMIT: i64 = 1_000_000_000_000;

/// Largest magnitude accepted for a fraction (anchor, percentage, scale
/// factor): one thousand times `FRACTION_ONE`.
pub const FRACTION_LIMIT: i64 = 1_000_000;

/// Largest magnitude a resolved length can reach:
/// `COORD_LIMIT * FRACTION_LIMIT / FRACTION_ONE`.
pub const RESOLVED_LIMIT: i64 = 1_000_000_000_000_000;

/// Largest magnitude a resolved position coordinate can reach: the anchor
/// contribution and the offset contribution are each bounded by
/// `RESOLVED_LIMIT`.
pub const POSITION_LIMIT: i64 = 2 * RESOLVED_LIMIT;

/// Largest number of stops a gradient stop list may hold; keeps the
/// normalizer's interpolation products inside `i64`.
pub const MAX_STOPS: usize = 2000;

/// A physical distance within the accepted range.
pub open spec fn coord_in_range(v: i64) -> bool {
    -COORD_LIMIT <= v <= COORD_LIMIT
}

/// A non-negative physical distance within the accepted range.
pub open spec fn size_in_range(v: i64) -> bool {
    0 <= v <= COORD_LIMIT
}

/// A resolved length within the range resolution can produce.
pub open spec fn resolved_in_range(v: i64) -> bool {
    -RESOLVED_LIMIT <= v <= RESOLVED_LIMIT
}

/// A fraction within the accepted range.
pub open spec fn fraction_in_range(v: i64) -> bool {
    -FRACTION_LIMIT <= v <= FRACTION_LIMIT
}

/// A two-dimensional integer vector: a physical point, size, or pair of
/// radii, depending on context.
#[derive(Clone, Copy, PartialEq, Eq, Structural, Debug)]
pub struct Vec2I {
    pub x: i64,
    pub y: i64,
}

impl Vec2I {
    /// Build a vector from its two components.
    pub fn new(x: i64, y: i64) -> (r: Vec2I)
        ensures
            r == (Vec2I { x, y }),
    {
        Vec2I { x, y }
    }
}

/// Quotient of `num` by `den`, rounded toward negative infinity; agrees with
/// mathematical integer division (the `/` of specifications) for a positive
/// divisor.
pub fn floor_div(num: i64, den: i64) -> (q: i64)
    requires
        1 <= den,
        i64::MIN < num,
    ensures
        q == num as int / den as int,
{
    if num >= 0 {
        let q = (num as u64) / (den as u64);
        q as i64
    } else {
        let a = (-num) as u64;
        let d = den as u64;
        let qq = (a + d - 1) / d;
        proof {
            lemma_floor_div_negative(num as int, den as int, a as int);
        }
        -(qq as i64)
    }
}

/// Floor division of a negative dividend, written through the ceiling of the
/// opposite: `num / den == -((-num + den - 1) / den)` for `num < 0 < den`.
proof fn lemma_floor_div_negative(num: int, den: int, a: int)
    requires
        1 <= den,
        num < 0,
        a == -num,
    ensures
        (a + den - 1) / den <= a,
        num / den == -((a + den - 1) / den),
{
    vstd::arithmetic::div_mod::lemma_fundamental_div_mod(a, den);
    let q0 = a / den;
    let r0 = a % den;
    vstd::arithmetic::div_mod::lemma_div_pos_is_pos(a, den);
    if r0 == 0 {
        assert(q0 * den == den * q0) by (nonlinear_arith);
        vstd::arithmetic::div_mod::lemma_fundamental_div_mod_converse_div(
            a + den - 1,
            den,
            q0,
            den - 1,
        );
        assert((-q0) * den == -(den * q0)) by (nonlinear_arith);
        vstd::arithmetic::div_mod::lemma_fundamental_div_mod_converse_div(num, den, -q0, 0);
    } else {
        assert((q0 + 1) * den == den * q0 + den) by (nonlinear_arith);
        vstd::arithmetic::div_mod::lemma_fundamental_div_mod_converse_div(
            a + den - 1,
            den,
            q0 + 1,
            r0 - 1,
        );
        assert((-(q0 + 1)) * den == -(den * q0) - den) by (nonlinear_arith);
        vstd::arithmetic::div_mod::lemma_fundamental_div_mod_converse_div(
            num,
            den,
            -(q0 + 1),
            den - r0,
        );
    }
    assert(a + den - 1 <= den * a) by (nonlinear_arith)
        requires
            1 <= a,
            1 <= den,
    ;
    vstd::arithmetic::div_mod::lemma_div_is_ordered(a + den - 1, den * a, den);
    vstd::arithmetic::div_mod::lemma_div_multiples_vanish(a, den);
}

/// An interpolation quotient `d * k / m` with `0 <= k <= m` stays between `0`
/// and `d`, whichever way `d` points.
pub proof fn lemma_interp_div_bounds(d: int, k: int, m: int)
    requires
        0 < m,
        0 <= k <= m,
    ensures
        d >= 0 ==> 0 <= d * k / m <= d,
        d < 0 ==> d <= d * k / m <= 0,
{
    if d >= 0 {
        assert(0 <= d * k && d * k <= d * m && d * m == m * d) by (nonlinear_arith)
            requires
                d >= 0,
                0 <= k <= m,
        ;
        vstd::arithmetic::div_mod::lemma_div_pos_is_pos(d * k, m);
        vstd::arithmetic::div_mod::lemma_div_is_ordered(d * k, d * m, m);
        vstd::arithmetic::div_mod::lemma_div_multiples_vanish(d, m);
    } else {
        assert(d * m <= d * k && d * k <= 0 && d * m == m * d) by (nonlinear_arith)
            requires
                d < 0,
                0 <= k <= m,
        ;
        vstd::arithmetic::div_mod::lemma_div_is_ordered(d * m, d * k, m);
        vstd::arithmetic::div_mod::lemma_div_multiples_vanish(d, m);
        vstd::arithmetic::div_mod::lemma_div_is_ordered(d * k, 0, m);
        assert(0int / m == 0) by {
            vstd::arithmetic::div_mod::lemma_div_pos_is_pos(0, m);
            vstd::arithmetic::div_mod::lemma_div_is_ordered(0, m, m);
            vstd::arithmetic::div_mod::lemma_div_multiples_vanish(1, m);
        }
    }
}

} // verus!
