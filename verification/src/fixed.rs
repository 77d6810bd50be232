//! Scalar fixed-point arithmetic: rounding division, saturation, and the
//! products and quotients of coordinates with ratios.

use vstd::arithmetic::div_mod::{lemma_fundamental_div_mod, lemma_fundamental_div_mod_converse};
use vstd::prelude::*;

verus! {

/// Sub-units in one whole unit of a coordinate.
pub const UNIT: i32 = 64;

/// The ratio 1: ratios carry 32 fractional bits.
pub const RATIO_ONE: u64 = 0x1_0000_0000;

/// The quotient `n / d` rounded to the nearest integer, halves away from zero.
/// Meaningful for `d > 0`.
pub open spec fn round_div(n: int, d: int) -> int {
    if n >= 0 {
        (2 * n + d) / (2 * d)
    } else {
        -((2 * (-n) + d) / (2 * d))
    }
}

/// `v` held to the range of an `i32`.
pub open spec fn clamp_i32(v: int) -> int {
    if v < i32::MIN {
        i32::MIN as int
    } else if v > i32::MAX {
        i32::MAX as int
    } else {
        v
    }
}

/// The product of `x` with the ratio `r`, rounded.
pub open spec fn mul_ratio(x: int, r: int) -> int {
    round_div(x * r, RATIO_ONE as int)
}

/// The quotient of `x` by the ratio `r`, rounded. Meaningful for `r > 0`.
pub open spec fn div_ratio(x: int, r: int) -> int {
    round_div(x * RATIO_ONE, r)
}

/// `v` held to the range of a ratio: positive and within a `u64`.
pub open spec fn clamp_ratio(v: int) -> int {
    if v < 1 {
        1
    } else if v > u64::MAX {
        u64::MAX as int
    } else {
        v
    }
}

/// Half of `a`, rounded toward zero.
pub open spec fn half(a: int) -> int {
    if a >= 0 {
        a / 2
    } else {
        -((-a) / 2)
    }
}

/// Rounding division of unsigned machine integers.
pub fn div_round_unsigned(n: u128, d: u128) -> (q: u128)
    requires
        d > 0,
    ensures
        q == round_div(n as int, d as int),
{
    let q: u128 = n / d;
    let r: u128 = n % d;
    proof {
        lemma_fundamental_div_mod(n as int, d as int);
        assert((d as int) * (q as int) == (q as int) * (d as int)) by (nonlinear_arith);
        if r >= d - r {
            assert(2 * (n as int) + d == (q + 1) * (2 * d) + (2 * r - d)) by (nonlinear_arith)
                requires
                    n as int == (q as int) * (d as int) + (r as int),
            ;
            lemma_fundamental_div_mod_converse(2 * (n as int) + d, 2 * d, q + 1, 2 * r - d);
            assert(q + 1 <= n) by (nonlinear_arith)
                requires
                    n as int == (q as int) * (d as int) + (r as int),
                    r >= d - r,
                    r < d,
                    q >= 0,
            ;
        } else {
            assert(2 * (n as int) + d == (q as int) * (2 * d) + (2 * r + d)) by (nonlinear_arith)
                requires
                    n as int == (q as int) * (d as int) + (r as int),
            ;
            lemma_fundamental_div_mod_converse(2 * (n as int) + d, 2 * d, q as int, 2 * r + d);
        }
    }
    if r >= d - r {
        q + 1
    } else {
        q
    }
}

/// Rounding division of signed machine integers.
pub fn div_round(n: i128, d: i128) -> (q: i128)
    requires
        d > 0,
        n > i128::MIN,
    ensures
        q == round_div(n as int, d as int),
{
    if n >= 0 {
        let q: u128 = div_round_unsigned(n as u128, d as u128);
        proof {
            lemma_round_div_bound(n as int, d as int, n as int);
            assert((n as int) * (d as int) >= n) by (nonlinear_arith)
                requires
                    n >= 0,
                    d >= 1,
            ;
        }
        q as i128
    } else {
        let m: i128 = -n;
        let q: u128 = div_round_unsigned(m as u128, d as u128);
        proof {
            lemma_round_div_bound(m as int, d as int, m as int);
            assert((m as int) * (d as int) >= m) by (nonlinear_arith)
                requires
                    m >= 0,
                    d >= 1,
            ;
        }
        -(q as i128)
    }
}

/// Saturating conversion to a coordinate.
pub fn saturate(v: i128) -> (r: i32)
    ensures
        r == clamp_i32(v as int),
{
    if v < -2147483648 {
        -2147483648
    } else if v > 2147483647 {
        2147483647
    } else {
        v as i32
    }
}

/// The product of a length with a ratio.
pub fn mul_by_ratio(x: i64, ratio: u64) -> (q: i128)
    ensures
        q == mul_ratio(x as int, ratio as int),
        -0x1_0000_0000_0000_0000_0000_0000 <= q <= 0x1_0000_0000_0000_0000_0000_0000,
{
    assert(-0x8000_0000_0000_0000_0000_0000_0000_0000 < (x as int) * (ratio as int)
        < 0x8000_0000_0000_0000_0000_0000_0000_0000) by (nonlinear_arith)
        requires
            -0x8000_0000_0000_0000 <= x < 0x8000_0000_0000_0000,
            0 <= ratio < 0x1_0000_0000_0000_0000,
    ;
    let product: i128 = (x as i128) * (ratio as i128);
    proof {
        lemma_round_div_error(product as int, RATIO_ONE as int);
        let q = round_div(product as int, RATIO_ONE as int);
        assert(q * (RATIO_ONE as int) == q * 0x1_0000_0000);
    }
    div_round(product, RATIO_ONE as i128)
}

/// The quotient of a length by a ratio.
pub fn div_by_ratio(x: i64, ratio: u64) -> (q: i128)
    requires
        ratio > 0,
    ensures
        q == div_ratio(x as int, ratio as int),
        -0x1_0000_0000_0000_0000_0000_0000 <= q <= 0x1_0000_0000_0000_0000_0000_0000,
{
    assert(-0x8000_0000_0000_0000_0000_0000 <= (x as int) * (RATIO_ONE as int)
        < 0x8000_0000_0000_0000_0000_0000) by (nonlinear_arith)
        requires
            -0x8000_0000_0000_0000 <= x < 0x8000_0000_0000_0000,
            RATIO_ONE == 0x1_0000_0000,
    ;
    let numerator: i128 = (x as i128) * (RATIO_ONE as i128);
    proof {
        lemma_round_div_magnitude(numerator as int, ratio as int);
    }
    div_round(numerator, ratio as i128)
}

/// The product of a length with a ratio, as a coordinate.
pub fn scale_up(x: i64, ratio: u64) -> (r: i32)
    ensures
        r == clamp_i32(mul_ratio(x as int, ratio as int)),
{
    saturate(mul_by_ratio(x, ratio))
}

/// The quotient of a length by a ratio, as a coordinate.
pub fn scale_down(x: i64, ratio: u64) -> (r: i32)
    requires
        ratio > 0,
    ensures
        r == clamp_i32(div_ratio(x as int, ratio as int)),
{
    saturate(div_by_ratio(x, ratio))
}

/// The ratio of two lengths.
pub fn ratio_of(n: i64, d: i64) -> (r: u64)
    requires
        d > 0,
    ensures
        r == clamp_ratio(div_ratio(n as int, d as int)),
{
    assert(-0x8000_0000_0000_0000_0000_0000 <= (n as int) * (RATIO_ONE as int)
        < 0x8000_0000_0000_0000_0000_0000) by (nonlinear_arith)
        requires
            -0x8000_0000_0000_0000 <= n < 0x8000_0000_0000_0000,
            RATIO_ONE == 0x1_0000_0000,
    ;
    let numerator: i128 = (n as i128) * (RATIO_ONE as i128);
    let q: i128 = div_round(numerator, d as i128);
    if q < 1 {
        1
    } else if q > 0xffff_ffff_ffff_ffff {
        0xffff_ffff_ffff_ffff
    } else {
        q as u64
    }
}

/// The product of two ratios.
pub fn compose_ratio(a: u64, b: u64) -> (r: u64)
    ensures
        r == clamp_ratio(mul_ratio(a as int, b as int)),
{
    assert(0 <= (a as int) * (b as int) <= 0xffff_ffff_ffff_ffff * 0xffff_ffff_ffff_ffff)
        by (nonlinear_arith)
        requires
            0 <= a <= 0xffff_ffff_ffff_ffff,
            0 <= b <= 0xffff_ffff_ffff_ffff,
    ;
    let product: u128 = (a as u128) * (b as u128);
    let q: u128 = div_round_unsigned(product, RATIO_ONE as u128);
    if q < 1 {
        1
    } else if q > 0xffff_ffff_ffff_ffff {
        0xffff_ffff_ffff_ffff
    } else {
        q as u64
    }
}

/// Half of a coordinate, rounded toward zero.
pub fn halve(a: i32) -> (r: i32)
    ensures
        r == half(a as int),
{
    if a >= 0 {
        a / 2
    } else if a == -2147483648 {
        -1073741824
    } else {
        -((-a) / 2)
    }
}

/// A product is no larger in magnitude than the product of the bounds of its
/// factors.
pub proof fn lemma_product_bound(a: int, b: int, bound_a: int, bound_b: int)
    by (nonlinear_arith)
    requires
        -bound_a <= a <= bound_a,
        -bound_b <= b <= bound_b,
    ensures
        -(bound_a * bound_b) <= a * b <= bound_a * bound_b,
        a * b == b * a,
{
}

/// The rounded quotient lies within half a divisor of the exact one; a half
/// is resolved away from zero.
pub proof fn lemma_round_div_error(n: int, d: int)
    requires
        d > 0,
    ensures
        -d <= 2 * (n - round_div(n, d) * d) <= d,
        n >= 0 ==> 2 * (n - round_div(n, d) * d) < d,
        n < 0 ==> -d < 2 * (n - round_div(n, d) * d),
        n >= 0 ==> round_div(n, d) >= 0,
        n <= 0 ==> round_div(n, d) <= 0,
{
    let m = if n >= 0 { n } else { -n };
    let x = 2 * m + d;
    let q = x / (2 * d);
    let r = x % (2 * d);
    lemma_fundamental_div_mod(x, 2 * d);
    assert(0 <= r < 2 * d);
    assert((2 * d) * q == 2 * (q * d)) by (nonlinear_arith);
    assert(q >= 0) by (nonlinear_arith)
        requires
            x == 2 * (q * d) + r,
            x >= d,
            r < 2 * d,
            d > 0,
    ;
    if n < 0 {
        assert((-q) * d == -(q * d)) by (nonlinear_arith);
    }
    if n == 0 {
        assert(q <= 0) by (nonlinear_arith)
            requires
                d == 2 * (q * d) + r,
                r >= 0,
                d > 0,
        ;
    }
}

/// An integer within less than half a divisor of the exact quotient is the
/// rounded quotient.
pub proof fn lemma_round_div_unique(n: int, d: int, m: int)
    requires
        d > 0,
        -d < 2 * (n - m * d) < d,
    ensures
        round_div(n, d) == m,
{
    if n >= 0 {
        let r = 2 * (n - m * d) + d;
        assert(2 * n + d == m * (2 * d) + r) by (nonlinear_arith)
            requires
                r == 2 * (n - m * d) + d,
        ;
        lemma_fundamental_div_mod_converse(2 * n + d, 2 * d, m, r);
    } else {
        let r = 2 * (m * d - n) + d;
        assert(2 * (-n) + d == (-m) * (2 * d) + r) by (nonlinear_arith)
            requires
                r == 2 * (m * d - n) + d,
        ;
        lemma_fundamental_div_mod_converse(2 * (-n) + d, 2 * d, -m, r);
    }
}

/// A multiple of the divisor divides without rounding.
pub proof fn lemma_round_div_exact(m: int, d: int)
    requires
        d > 0,
    ensures
        round_div(m * d, d) == m,
{
    lemma_round_div_unique(m * d, d, m);
}

/// Rounding division commutes with negation.
pub proof fn lemma_round_div_neg(n: int, d: int)
    requires
        d > 0,
    ensures
        round_div(-n, d) == -round_div(n, d),
{
    if n == 0 {
        lemma_round_div_exact(0, d);
        assert(0 * d == 0);
    }
}

/// Rounding division is monotonic in the dividend.
pub proof fn lemma_round_div_monotonic(a: int, b: int, d: int)
    requires
        d > 0,
        a <= b,
    ensures
        round_div(a, d) <= round_div(b, d),
{
    let qa = round_div(a, d);
    let qb = round_div(b, d);
    lemma_round_div_error(a, d);
    lemma_round_div_error(b, d);
    if qa > qb {
        // 2a >= 2*qa*d - d >= 2*(qb + 1)*d - d = 2*qb*d + d >= 2b, with
        // equality excluded by the direction in which halves are resolved.
        assert(qa * d >= (qb + 1) * d) by (nonlinear_arith)
            requires
                qa >= qb + 1,
                d > 0,
        ;
        assert((qb + 1) * d == qb * d + d) by (nonlinear_arith);
        assert(2 * a >= 2 * b);
        assert(a == b);
    }
}

/// A rounded quotient does not cross an integer that bounds the exact one.
pub proof fn lemma_round_div_bound(n: int, d: int, m: int)
    requires
        d > 0,
    ensures
        n <= m * d ==> round_div(n, d) <= m,
        n >= m * d ==> round_div(n, d) >= m,
{
    lemma_round_div_exact(m, d);
    if n <= m * d {
        lemma_round_div_monotonic(n, m * d, d);
    }
    if n >= m * d {
        lemma_round_div_monotonic(m * d, n, d);
    }
}

/// A rounded quotient is no larger in magnitude than its dividend.
pub proof fn lemma_round_div_magnitude(n: int, d: int)
    requires
        d > 0,
    ensures
        n >= 0 ==> 0 <= round_div(n, d) <= n,
        n <= 0 ==> n <= round_div(n, d) <= 0,
{
    lemma_round_div_error(n, d);
    lemma_round_div_bound(n, d, n);
    assert(n >= 0 ==> n * d >= n) by (nonlinear_arith)
        requires
            d >= 1,
    ;
    assert(n <= 0 ==> n * d <= n) by (nonlinear_arith)
        requires
            d >= 1,
    ;
}

} // verus!
