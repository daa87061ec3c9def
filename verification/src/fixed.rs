//! Fixed-point numbers in millionths, and the rounding rules that the
//! viewport arithmetic is built from.
//!
//! Positions are kept in millionths of a pixel and scales in millionths of
//! the unit scale, as plain `i64` values. Products are taken in `i128`, so
//! no operation here overflows, and every quotient says how it is rounded.

use vstd::prelude::*;
use vstd::arithmetic::div_mod::*;

verus! {

/// The fixed-point unit: a raw value `v` stands for the number `v / ONE`.
pub const ONE: i64 = 1_000_000;

/// Largest magnitude of a stored coordinate (a million million pixels).
pub const COORD_LIMIT: i64 = 1_000_000_000_000_000_000;

/// Largest scale or zoom factor that can be stored (a million, in units of
/// `ONE`).
pub const SCALE_LIMIT: i64 = 1_000_000_000_000;

/// Largest magnitude of a product of two `i64` values.
pub const PRODUCT_LIMIT: i128 = 0x4000_0000_0000_0000_0000_0000_0000_0000;

/// The quotient `n / d` rounded to the nearest integer, halves upwards.
pub open spec fn round_div(n: int, d: int) -> int {
    (2 * n + d) / (2 * d)
}

/// `v` forced into `[lo, hi]`.
pub open spec fn clamp(v: int, lo: int, hi: int) -> int {
    if v < lo {
        lo
    } else if v > hi {
        hi
    } else {
        v
    }
}

/// A coordinate forced into the range that the engine stores.
pub open spec fn saturate(v: int) -> int {
    clamp(v, -COORD_LIMIT, COORD_LIMIT as int)
}

/// Whether `v` is a coordinate that the engine stores unchanged.
pub open spec fn in_coord_range(v: int) -> bool {
    -COORD_LIMIT <= v <= COORD_LIMIT
}

/// The magnitude of `v`.
pub open spec fn magnitude(v: int) -> int {
    if v >= 0 {
        v
    } else {
        -v
    }
}

/// `round_div(n, d)` is the one integer `q` with `2n - d < 2dq <= 2n + d`.
pub proof fn lemma_round_div_bounds(n: int, d: int)
    requires
        d > 0,
    ensures
        2 * n - d < 2 * d * round_div(n, d) <= 2 * n + d,
{
    lemma_fundamental_div_mod(2 * n + d, 2 * d);
    lemma_mod_bound(2 * n + d, 2 * d);
}

/// Any integer `q` with `2n - d < 2dq <= 2n + d` is `round_div(n, d)`.
pub proof fn lemma_round_div_unique(n: int, d: int, q: int)
    requires
        d > 0,
        2 * n - d < 2 * d * q <= 2 * n + d,
    ensures
        round_div(n, d) == q,
{
    let r = 2 * n + d - 2 * d * q;
    assert(q * (2 * d) == 2 * d * q) by (nonlinear_arith);
    lemma_fundamental_div_mod_converse(2 * n + d, 2 * d, q, r);
}

/// The rounded quotient of `n` by a positive `d`.
pub fn div_round(n: i128, d: i64) -> (q: i128)
    requires
        d > 0,
        -PRODUCT_LIMIT <= n <= PRODUCT_LIMIT,
    ensures
        q == round_div(n as int, d as int),
        n >= 0 ==> 0 <= q <= n + 1,
        n < 0 ==> n - 1 <= q <= 0,
{
    let dd: u128 = d as u128;
    if n >= 0 {
        let m: u128 = n as u128;
        let q0: u128 = m / dd;
        let r: u128 = m % dd;
        proof {
            lemma_fundamental_div_mod(m as int, dd as int);
            lemma_mod_bound(m as int, dd as int);
            lemma_div_pos_is_pos(m as int, dd as int);
            lemma_div_is_ordered_by_denominator(m as int, 1, dd as int);
        }
        if 2 * r >= dd {
            proof {
                assert(2 * (dd as int) * (q0 as int + 1) == 2 * (dd as int * q0 as int) + 2
                    * dd as int) by (nonlinear_arith);
                lemma_round_div_unique(n as int, d as int, q0 as int + 1);
            }
            (q0 + 1) as i128
        } else {
            proof {
                assert(2 * (dd as int) * (q0 as int) == 2 * (dd as int * q0 as int))
                    by (nonlinear_arith);
                lemma_round_div_unique(n as int, d as int, q0 as int);
            }
            q0 as i128
        }
    } else {
        let m: u128 = (-n) as u128;
        let q0: u128 = m / dd;
        let r: u128 = m % dd;
        proof {
            lemma_fundamental_div_mod(m as int, dd as int);
            lemma_mod_bound(m as int, dd as int);
            lemma_div_pos_is_pos(m as int, dd as int);
            lemma_div_is_ordered_by_denominator(m as int, 1, dd as int);
        }
        if 2 * r > dd {
            proof {
                assert(2 * (dd as int) * (-(q0 as int) - 1) == -2 * (dd as int * q0 as int) - 2
                    * dd as int) by (nonlinear_arith);
                lemma_round_div_unique(n as int, d as int, -(q0 as int) - 1);
            }
            -((q0 + 1) as i128)
        } else {
            proof {
                assert(2 * (dd as int) * (-(q0 as int)) == -2 * (dd as int * q0 as int))
                    by (nonlinear_arith);
                lemma_round_div_unique(n as int, d as int, -(q0 as int));
            }
            -(q0 as i128)
        }
    }
}

/// The least integer that is not below `n / d`, for a positive `d`.
pub open spec fn ceil_div(n: int, d: int) -> int {
    (n + d - 1) / d
}

/// The quotient `n / d` with its fraction dropped (rounded toward zero).
pub open spec fn trunc_div(n: int, d: int) -> int {
    if n >= 0 {
        n / d
    } else {
        -((-n) / d)
    }
}

/// How far one easing step moves a value that is `delta` away from its
/// target: the fraction `factor / ONE` of the distance, rounded away from
/// zero, so that a value which has not arrived always moves.
pub open spec fn ease_step(delta: int, factor: int) -> int {
    if delta >= 0 {
        ceil_div(delta * factor, ONE as int)
    } else {
        -ceil_div(-delta * factor, ONE as int)
    }
}

/// One easing step of `value` toward `target`.
pub open spec fn ease(value: int, target: int, factor: int) -> int {
    value + ease_step(target - value, factor)
}

/// An easing step with a factor in `(0, ONE]` moves toward the target, by
/// at least one unit and never past it; with the factor `ONE` it arrives.
pub proof fn lemma_ease_step(delta: int, factor: int)
    requires
        0 < factor <= ONE,
    ensures
        delta > 0 ==> 0 < ease_step(delta, factor) <= delta,
        delta < 0 ==> delta <= ease_step(delta, factor) < 0,
        delta == 0 ==> ease_step(delta, factor) == 0,
        factor == ONE ==> ease_step(delta, factor) == delta,
{
    if delta >= 0 {
        assert(0 <= delta * factor <= delta * ONE) by (nonlinear_arith)
            requires
                0 <= delta,
                0 < factor <= ONE,
        ;
        assert(delta > 0 ==> delta * factor >= 1) by (nonlinear_arith)
            requires
                0 < factor,
        ;
    } else {
        assert(0 <= -delta * factor <= -delta * ONE) by (nonlinear_arith)
            requires
                delta < 0,
                0 < factor <= ONE,
        ;
        assert(-delta * factor >= 1) by (nonlinear_arith)
            requires
                delta < 0,
                0 < factor,
        ;
    }
}

/// `v` forced into `[lo, hi]`.
pub fn clamp_to(v: i128, lo: i64, hi: i64) -> (r: i64)
    requires
        lo <= hi,
    ensures
        r == clamp(v as int, lo as int, hi as int),
{
    if v < lo as i128 {
        lo
    } else if v > hi as i128 {
        hi
    } else {
        v as i64
    }
}

/// `v` forced into the range of stored coordinates.
pub fn saturate_coord(v: i128) -> (r: i64)
    ensures
        r == saturate(v as int),
        -COORD_LIMIT <= r <= COORD_LIMIT,
{
    clamp_to(v, -COORD_LIMIT, COORD_LIMIT)
}

/// The product `a * b` divided by a positive `d`, rounded to the nearest
/// integer.
pub fn mul_div_round(a: i64, b: i64, d: i64) -> (q: i128)
    requires
        d > 0,
    ensures
        q == round_div(a * b, d as int),
        a * b >= 0 ==> 0 <= q <= a * b + 1,
        a * b < 0 ==> a * b - 1 <= q <= 0,
{
    assert(-PRODUCT_LIMIT <= a * b <= PRODUCT_LIMIT) by (nonlinear_arith)
        requires
            -0x8000_0000_0000_0000 <= a <= 0x7fff_ffff_ffff_ffff,
            -0x8000_0000_0000_0000 <= b <= 0x7fff_ffff_ffff_ffff,
    ;
    div_round(a as i128 * b as i128, d)
}

/// One easing step of `value` toward `target`, for a factor in `(0, ONE]`.
pub fn ease_toward(value: i64, target: i64, factor: i64) -> (r: i64)
    requires
        0 < factor <= ONE,
    ensures
        r == ease(value as int, target as int, factor as int),
{
    let delta: i128 = target as i128 - value as i128;
    proof {
        lemma_ease_step(delta as int, factor as int);
    }
    if delta >= 0 {
        let m: u128 = delta as u128;
        assert(0 <= m * factor <= m * ONE) by (nonlinear_arith)
            requires
                0 <= m,
                0 < factor <= ONE,
        ;
        let n: u128 = m * (factor as u128);
        let step: u128 = (n + (ONE as u128 - 1)) / (ONE as u128);
        (value as i128 + step as i128) as i64
    } else {
        let m: u128 = (-delta) as u128;
        assert(0 <= m * factor <= m * ONE) by (nonlinear_arith)
            requires
                0 <= m,
                0 < factor <= ONE,
        ;
        let n: u128 = m * (factor as u128);
        let step: u128 = (n + (ONE as u128 - 1)) / (ONE as u128);
        (value as i128 - step as i128) as i64
    }
}

/// The quotient of `n` by a positive `d`, rounded toward zero.
pub fn div_trunc(n: i128, d: i64) -> (q: i128)
    requires
        d > 0,
        n > i128::MIN,
    ensures
        q == trunc_div(n as int, d as int),
{
    if n >= 0 {
        let q0: u128 = (n as u128) / (d as u128);
        proof {
            lemma_div_pos_is_pos(n as int, d as int);
            lemma_div_is_ordered_by_denominator(n as int, 1, d as int);
        }
        q0 as i128
    } else {
        let q0: u128 = ((-n) as u128) / (d as u128);
        proof {
            lemma_div_pos_is_pos(-n as int, d as int);
            lemma_div_is_ordered_by_denominator(-n as int, 1, d as int);
        }
        -(q0 as i128)
    }
}

} // verus!
