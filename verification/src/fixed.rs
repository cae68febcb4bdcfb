//! Fixed-point arithmetic in millionths, rounding to nearest.
use vstd::prelude::*;

verus! {

/// One whole unit expressed in millionths.
pub const MICRO: i64 = 1_000_000;

/// `v` is representable as an `i64`.
pub open spec fn fits_i64(v: int) -> bool {
    i64::MIN <= v <= i64::MAX
}

/// `r` is the integer square root of `x`, rounded down.
pub open spec fn is_floor_sqrt(x: int, r: int) -> bool {
    0 <= r && r * r <= x && x < (r + 1) * (r + 1)
}

/// The integer square root of `x`, rounded down.
pub open spec fn floor_sqrt(x: int) -> int {
    choose|r: int| is_floor_sqrt(x, r)
}

pub proof fn lemma_floor_sqrt_unique(x: int, r1: int, r2: int)
    requires
        is_floor_sqrt(x, r1),
        is_floor_sqrt(x, r2),
    ensures
        r1 == r2,
{
    if r1 < r2 {
        assert((r1 + 1) * (r1 + 1) <= r2 * r2) by (nonlinear_arith)
            requires
                0 <= r1 + 1 <= r2,
        ;
    } else if r2 < r1 {
        assert((r2 + 1) * (r2 + 1) <= r1 * r1) by (nonlinear_arith)
            requires
                0 <= r2 + 1 <= r1,
        ;
    }
}

/// Every non-negative number has an integer square root, so the one that
/// `floor_sqrt` picks is a true one (and is not negative).
pub proof fn lemma_floor_sqrt_exists(x: int)
    requires
        x >= 0,
    ensures
        is_floor_sqrt(x, floor_sqrt(x)),
    decreases x,
{
    if x == 0 {
        assert(is_floor_sqrt(0, 0));
    } else {
        lemma_floor_sqrt_exists(x - 1);
        let r = floor_sqrt(x - 1);
        if (r + 1) * (r + 1) <= x {
            assert(is_floor_sqrt(x, r + 1)) by (nonlinear_arith)
                requires
                    0 <= r,
                    (r + 1) * (r + 1) <= x,
                    x - 1 < (r + 1) * (r + 1),
            ;
        } else {
            assert(is_floor_sqrt(x, r));
        }
    }
}

/// Integer square root, rounded down.
pub fn isqrt(x: u128) -> (r: u64)
    requires
        x < 0x1_0000_0000_0000_0000_0000_0000,
    ensures
        is_floor_sqrt(x as int, r as int),
        r == floor_sqrt(x as int),
{
    let mut lo: u128 = 0;
    let mut hi: u128 = 0x1_0000_0000_0000;
    assert(hi * hi == 0x1_0000_0000_0000_0000_0000_0000) by (nonlinear_arith)
        requires
            hi == 0x1_0000_0000_0000u128,
    ;
    while hi - lo > 1
        invariant
            lo < hi <= 0x1_0000_0000_0000,
            lo * lo <= x,
            x < hi * hi,
        decreases hi - lo,
    {
        let mid = lo + (hi - lo) / 2;
        assert(mid * mid <= 0x1_0000_0000_0000_0000_0000_0000) by (nonlinear_arith)
            requires
                mid <= 0x1_0000_0000_0000u128,
        ;
        if mid * mid <= x {
            lo = mid;
        } else {
            hi = mid;
        }
    }
    assert(is_floor_sqrt(x as int, lo as int));
    proof {
        lemma_floor_sqrt_unique(x as int, lo as int, floor_sqrt(x as int));
    }
    lo as u64
}

/// Quotient of `a` by a positive `b`, rounded to the nearest integer, halves
/// upward.
pub open spec fn rdiv(a: int, b: int) -> int
    recommends
        b > 0,
{
    (2 * a + b) / (2 * b)
}

/// Quotient of `a` by a positive `b`, rounded to the nearest integer, halves upward.
pub fn div_round(a: i128, b: i128) -> (r: i128)
    requires
        b > 0,
        -0x1000_0000_0000_0000_0000_0000_0000_0000 <= a <= 0x1000_0000_0000_0000_0000_0000_0000_0000,
        b <= 0x1000_0000_0000_0000_0000_0000_0000_0000,
    ensures
        r == rdiv(a as int, b as int),
{
    let num = 2 * a + b;
    let den = 2 * b;
    if num >= 0 {
        num / den
    } else {
        let p = -num;
        let q = p / den;
        let m = p % den;
        proof {
            vstd::arithmetic::div_mod::lemma_fundamental_div_mod(p as int, den as int);
            if m == 0 {
                assert(num == (-q) * den + 0) by (nonlinear_arith)
                    requires
                        p == den * q + m,
                        m == 0,
                        num == -p,
                ;
                vstd::arithmetic::div_mod::lemma_fundamental_div_mod_converse(
                    num as int,
                    den as int,
                    -q,
                    0,
                );
            } else {
                assert(num == (-q - 1) * den + (den - m)) by (nonlinear_arith)
                    requires
                        p == den * q + m,
                        num == -p,
                ;
                vstd::arithmetic::div_mod::lemma_fundamental_div_mod_converse(
                    num as int,
                    den as int,
                    -q - 1,
                    den - m,
                );
            }
        }
        if m == 0 {
            -q
        } else {
            -q - 1
        }
    }
}

/// Rounding never moves a quotient by a positive divisor past zero or past
/// the dividend.
pub proof fn lemma_rdiv_bound(a: int, b: int)
    requires
        b >= 1,
    ensures
        a >= 0 ==> 0 <= rdiv(a, b) <= a,
        a < 0 ==> a <= rdiv(a, b) <= 0,
{
    let q = rdiv(a, b);
    vstd::arithmetic::div_mod::lemma_fundamental_div_mod(2 * a + b, 2 * b);
    let r = (2 * a + b) % (2 * b);
    assert(2 * a + b == 2 * b * q + r);
    assert(0 <= r < 2 * b);
    if a >= 0 {
        assert(0 <= q <= a) by (nonlinear_arith)
            requires
                2 * a + b == 2 * b * q + r,
                0 <= r < 2 * b,
                a >= 0,
                b >= 1,
        ;
    } else {
        assert(a <= q <= 0) by (nonlinear_arith)
            requires
                2 * a + b == 2 * b * q + r,
                0 <= r < 2 * b,
                a < 0,
                b >= 1,
        ;
    }
}

/// Scaling by a fraction `k / b` no larger than one, with rounding, never
/// moves a value away from zero.
pub proof fn lemma_rdiv_scaled(c: int, k: int, b: int)
    requires
        b >= 1,
        0 <= k <= b,
    ensures
        c >= 0 ==> 0 <= rdiv(c * k, b) <= c,
        c < 0 ==> c <= rdiv(c * k, b) <= 0,
{
    let q = rdiv(c * k, b);
    vstd::arithmetic::div_mod::lemma_fundamental_div_mod(2 * (c * k) + b, 2 * b);
    let r = (2 * (c * k) + b) % (2 * b);
    assert(2 * (c * k) + b == 2 * b * q + r);
    if c >= 0 {
        assert(0 <= c * k <= c * b) by (nonlinear_arith)
            requires
                c >= 0,
                0 <= k <= b,
        ;
        assert(0 <= q <= c) by (nonlinear_arith)
            requires
                2 * (c * k) + b == 2 * b * q + r,
                0 <= r < 2 * b,
                0 <= c * k <= c * b,
                b >= 1,
        ;
    } else {
        assert(c * b <= c * k <= 0) by (nonlinear_arith)
            requires
                c < 0,
                0 <= k <= b,
        ;
        assert(c <= q <= 0) by (nonlinear_arith)
            requires
                2 * (c * k) + b == 2 * b * q + r,
                0 <= r < 2 * b,
                c * b <= c * k <= 0,
                b >= 1,
        ;
    }
}

/// Rounded division by a positive divisor preserves order.
pub proof fn lemma_rdiv_monotone(a1: int, a2: int, b: int)
    requires
        a1 <= a2,
        b >= 1,
    ensures
        rdiv(a1, b) <= rdiv(a2, b),
{
    vstd::arithmetic::div_mod::lemma_div_is_ordered(2 * a1 + b, 2 * a2 + b, 2 * b);
}

/// Rounded division lands within half a unit of the exact quotient:
/// `2 * b * rdiv(a, b)` lies in `(2 * a - b, 2 * a + b]`.
pub proof fn lemma_rdiv_within_half(a: int, b: int)
    requires
        b >= 1,
    ensures
        2 * a - b < 2 * b * rdiv(a, b) <= 2 * a + b,
{
    vstd::arithmetic::div_mod::lemma_fundamental_div_mod(2 * a + b, 2 * b);
    let q = rdiv(a, b);
    let r = (2 * a + b) % (2 * b);
    assert(2 * a + b == (2 * b) * q + r);
    assert((2 * b) * q == 2 * b * q) by (nonlinear_arith);
}

/// Rounded division of an exact multiple gives the multiplier back.
pub proof fn lemma_rdiv_exact(c: int, b: int)
    requires
        b >= 1,
    ensures
        rdiv(c * b, b) == c,
{
    assert(2 * (c * b) + b == c * (2 * b) + b) by (nonlinear_arith);
    vstd::arithmetic::div_mod::lemma_fundamental_div_mod_converse(2 * (c * b) + b, 2 * b, c, b);
}

/// `a / b` in millionths, rounded; `None` when `b` is zero.
pub open spec fn quotient_micro(a: int, b: int) -> Option<int> {
    if b > 0 {
        Some(rdiv(a * 1_000_000, b))
    } else if b < 0 {
        Some(rdiv(-a * 1_000_000, -b))
    } else {
        None
    }
}

pub proof fn lemma_mul_bound(a: int, b: int, ba: int, bb: int)
    requires
        -ba <= a <= ba,
        -bb <= b <= bb,
    ensures
        -(ba * bb) <= a * b <= ba * bb,
{
    assert(-(ba * bb) <= a * b <= ba * bb) by (nonlinear_arith)
        requires
            -ba <= a <= ba,
            -bb <= b <= bb,
    ;
}

/// `v` as an `i64` when it fits.
pub fn narrow(v: i128) -> (r: Option<i64>)
    ensures
        r is Some <==> fits_i64(v as int),
        r matches Some(n) ==> n == v,
{
    if v >= i64::MIN as i128 && v <= i64::MAX as i128 {
        Some(v as i64)
    } else {
        None
    }
}

/// `a / b` in millionths, rounded, when it fits.
pub fn quotient_micro_exec(a: i64, b: i64) -> (r: Option<i64>)
    requires
        b != 0,
    ensures
        r is Some <==> fits_i64(quotient_micro(a as int, b as int)->0),
        r matches Some(q) ==> q == quotient_micro(a as int, b as int)->0,
{
    if b > 0 {
        narrow(div_round(a as i128 * 1_000_000, b as i128))
    } else {
        narrow(div_round(-(a as i128 * 1_000_000), -(b as i128)))
    }
}

/// `a / b` in millionths, rounded, for a wide dividend, when it fits.
pub fn quotient_micro_exec_wide(a: i128, b: i64) -> (r: Option<i64>)
    requires
        b != 0,
        -0x1_0000_0000_0000_0000_0000_0000 <= a <= 0x1_0000_0000_0000_0000_0000_0000,
    ensures
        r is Some <==> fits_i64(quotient_micro(a as int, b as int)->0),
        r matches Some(q) ==> q == quotient_micro(a as int, b as int)->0,
{
    if b > 0 {
        narrow(div_round(a * 1_000_000, b as i128))
    } else {
        narrow(div_round(-(a * 1_000_000), -(b as i128)))
    }
}

} // verus!
