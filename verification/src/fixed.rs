//! Fixed-point arithmetic primitives shared by the coverage evaluator.
//!
//! One coordinate unit is represented by `SCALE`, so a stored value `v`
//! stands for the real number `v / SCALE`. Division truncates toward zero
//! (`s_tdiv`), matching hardware signed division, and square roots are
//! rounded down (`s_floor_sqrt`).

use vstd::prelude::*;

verus! {

/// Fixed-point representation of 1.0: one coordinate unit.
pub const SCALE: i64 = 65536;

/// Fixed-point representation of 0.5, the center of the anti-aliasing ramp.
pub const HALF: i64 = 32768;

/// Largest magnitude a stored coordinate may have (32768.0 units).
pub const COORD_LIMIT: i64 = 2147483648;

/// Largest magnitude an inverse-diameter component may have (`SCALE` cubed,
/// reached when the anti-aliasing window times the derivative is one ulp).
pub const INV_LIMIT: i64 = 281474976710656;

/// Magnitude of a value.
pub open spec fn s_abs(a: int) -> int {
    if a < 0 {
        -a
    } else {
        a
    }
}

/// Division truncating toward zero, as signed machine division does.
pub open spec fn s_tdiv(a: int, b: int) -> int
    recommends
        b != 0,
{
    if (a < 0) == (b < 0) {
        s_abs(a) / s_abs(b)
    } else {
        -(s_abs(a) / s_abs(b))
    }
}

/// Clamp `v` into the closed interval `[lo, hi]`.
pub open spec fn s_clamp(v: int, lo: int, hi: int) -> int
    recommends
        lo <= hi,
{
    if v < lo {
        lo
    } else if v > hi {
        hi
    } else {
        v
    }
}

/// `r` is the square root of `n`, rounded down.
pub open spec fn is_floor_sqrt(n: int, r: int) -> bool {
    0 <= r && r * r <= n && n < (r + 1) * (r + 1)
}

/// The square root of `n`, rounded down (meaningful for `n >= 0`).
pub open spec fn s_floor_sqrt(n: int) -> int {
    choose|r: int| is_floor_sqrt(n, r)
}

/// At most one integer is the rounded-down square root of `n`.
proof fn lemma_floor_sqrt_unique(n: int, r1: int, r2: int)
    requires
        is_floor_sqrt(n, r1),
        is_floor_sqrt(n, r2),
    ensures
        r1 == r2,
{
    if r1 < r2 {
        assert((r1 + 1) * (r1 + 1) <= r2 * r2) by (nonlinear_arith)
            requires
                0 <= r1 + 1 <= r2,
        ;
    }
    if r2 < r1 {
        assert((r2 + 1) * (r2 + 1) <= r1 * r1) by (nonlinear_arith)
            requires
                0 <= r2 + 1 <= r1,
        ;
    }
}

/// Truncating signed division on machine integers.
pub fn tdiv_i128(a: i128, b: i128) -> (q: i128)
    requires
        b != 0,
        -0x40000000000000000000000000000000 < a < 0x40000000000000000000000000000000,
        -0x40000000000000000000000000000000 < b < 0x40000000000000000000000000000000,
    ensures
        q == s_tdiv(a as int, b as int),
        s_abs(q as int) <= s_abs(a as int),
{
    let neg_a: bool = a < 0;
    let neg_b: bool = b < 0;
    let ua: i128 = if neg_a {
        -a
    } else {
        a
    };
    let ub: i128 = if neg_b {
        -b
    } else {
        b
    };
    let mag: i128 = ua / ub;
    proof {
        lemma_div_bounds(ua as int, ub as int);
    }
    if neg_a == neg_b {
        mag
    } else {
        -mag
    }
}

/// A quotient of non-negative integers is between zero and the dividend.
proof fn lemma_div_bounds(a: int, b: int)
    requires
        0 <= a,
        1 <= b,
    ensures
        0 <= a / b <= a,
{
    assert(0 <= a / b <= a) by (nonlinear_arith)
        requires
            0 <= a,
            1 <= b,
    ;
}

/// The magnitude of a truncating quotient is at most any `m` with
/// `|a| <= |b| * m`.
pub proof fn lemma_tdiv_magnitude(a: int, b: int, m: int)
    requires
        b != 0,
        0 <= m,
        s_abs(a) <= s_abs(b) * m,
    ensures
        s_abs(s_tdiv(a, b)) <= m,
{
    vstd::arithmetic::div_mod::lemma_multiply_divide_le(s_abs(a), s_abs(b), m);
    vstd::arithmetic::div_mod::lemma_div_pos_is_pos(s_abs(a), s_abs(b));
}

/// Negating both the dividend and the divisor leaves a truncating quotient
/// unchanged.
pub proof fn lemma_tdiv_neg_both(a: int, b: int)
    requires
        b != 0,
    ensures
        s_tdiv(-a, -b) == s_tdiv(a, b),
{
}

/// Negating the dividend alone negates a truncating quotient.
pub proof fn lemma_tdiv_neg_dividend(a: int, b: int)
    requires
        b != 0,
    ensures
        s_tdiv(-a, b) == -s_tdiv(a, b),
{
}

/// The remainder a truncating quotient leaves is smaller in magnitude than
/// the divisor.
pub proof fn lemma_tdiv_remainder(a: int, b: int)
    requires
        b != 0,
    ensures
        s_abs(a - b * s_tdiv(a, b)) < s_abs(b),
{
    let ua: int = s_abs(a);
    let ub: int = s_abs(b);
    let q: int = ua / ub;
    vstd::arithmetic::div_mod::lemma_fundamental_div_mod(ua, ub);
    vstd::arithmetic::div_mod::lemma_mod_division_less_than_divisor(ua, ub);
    let r: int = ua % ub;
    if a >= 0 && b > 0 {
        assert(a - b * s_tdiv(a, b) == r);
    } else if a < 0 && b < 0 {
        assert((-b) * q == -(b * q)) by (nonlinear_arith);
        assert(a - b * s_tdiv(a, b) == -r);
    } else if a >= 0 && b < 0 {
        assert(b * (-q) == (-b) * q) by (nonlinear_arith);
        assert(a - b * s_tdiv(a, b) == r);
    } else {
        assert(b * (-q) == -(b * q)) by (nonlinear_arith);
        assert(a - b * s_tdiv(a, b) == -r);
    }
}

/// Clamp on machine integers.
pub fn clamp_i128(v: i128, lo: i128, hi: i128) -> (r: i128)
    requires
        lo <= hi,
    ensures
        r == s_clamp(v as int, lo as int, hi as int),
{
    if v < lo {
        lo
    } else if v > hi {
        hi
    } else {
        v
    }
}

/// Square root of `n`, rounded down, by bisection.
pub fn isqrt_u128(n: u128) -> (r: u128)
    requires
        n < 0x40000000000000000000000000,  // 2^102
    ensures
        r == s_floor_sqrt(n as int),
        is_floor_sqrt(n as int, r as int),
{
    let mut lo: u128 = 0;
    let mut hi: u128 = 0x8000000000000;  // 2^51
    assert(n < hi * hi) by (nonlinear_arith)
        requires
            n < 0x40000000000000000000000000 && hi == 0x8000000000000,
    ;
    while lo + 1 < hi
        invariant
            0 <= lo < hi <= 0x8000000000000,
            lo * lo <= n,
            n < hi * hi,
        decreases hi - lo,
    {
        let mid: u128 = lo + (hi - lo) / 2;
        assert(lo < mid < hi);
        assert(mid * mid <= 0x8000000000000 * 0x8000000000000) by (nonlinear_arith)
            requires
                0 <= mid <= 0x8000000000000,
        ;
        if mid * mid <= n {
            lo = mid;
        } else {
            hi = mid;
        }
    }
    proof {
        assert(hi == lo + 1);
        assert(is_floor_sqrt(n as int, lo as int));
        let w: int = choose|r: int| is_floor_sqrt(n as int, r);
        lemma_floor_sqrt_unique(n as int, w, lo as int);
    }
    lo
}

} // verus!
