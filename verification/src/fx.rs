//! Saturating fixed-point scalars: the renderer's numeric base.
//!
//! A scalar is an `i64` holding `value * 2^32`. Every operation is total:
//! results are clamped to the symmetric range `[-i64::MAX, i64::MAX]` and a
//! division by zero yields zero, so no radiance computation can panic.

use vstd::prelude::*;


verus! {

/// A fixed-point scalar: the raw `i64` is the represented value times [`FX_ONE`].
pub type Fx = i64;

/// The fixed-point representation of 1.0, i.e. the scaling factor 2^32.
pub const FX_ONE: i64 = 0x1_0000_0000;

/// The absolute value of a mathematical integer.
pub open spec fn absi(x: int) -> int {
    if x >= 0 {
        x
    } else {
        -x
    }
}

/// Clamp a mathematical integer into the symmetric raw range of a scalar.
pub open spec fn sat(x: int) -> int {
    if x > i64::MAX {
        i64::MAX as int
    } else if x < -(i64::MAX as int) {
        -(i64::MAX as int)
    } else {
        x
    }
}

/// Division truncating toward zero, as the scalar operations round.
/// Meaningful only for `d != 0`.
pub open spec fn div_tz(n: int, d: int) -> int {
    if (n >= 0) == (d >= 0) {
        absi(n) / absi(d)
    } else {
        -(absi(n) / absi(d))
    }
}

/// Raw result of fixed-point addition.
pub open spec fn fx_add_spec(a: int, b: int) -> int {
    sat(a + b)
}

/// Raw result of fixed-point subtraction.
pub open spec fn fx_sub_spec(a: int, b: int) -> int {
    sat(a - b)
}

/// Raw result of fixed-point negation.
pub open spec fn fx_neg_spec(a: int) -> int {
    sat(-a)
}

/// Raw result of fixed-point multiplication: `a * b / 2^32`, truncated
/// toward zero and clamped.
pub open spec fn fx_mul_spec(a: int, b: int) -> int {
    sat(div_tz(a * b, FX_ONE as int))
}

/// Raw result of fixed-point division: `a * 2^32 / b`, truncated toward
/// zero and clamped; zero when the divisor is zero.
pub open spec fn fx_div_spec(a: int, b: int) -> int {
    if b == 0 {
        0
    } else {
        sat(div_tz(a * (FX_ONE as int), b))
    }
}

/// Raw result of dividing a scalar by a plain positive integer.
pub open spec fn fx_div_int_spec(a: int, d: int) -> int {
    sat(div_tz(a, d))
}

/// Raw scalar representing the plain integer `n`.
pub open spec fn fx_from_int_spec(n: int) -> int {
    sat(n * (FX_ONE as int))
}

/// Raw scalar representing the fraction `n / d`; zero when `d` is zero.
pub open spec fn fx_from_ratio_spec(n: int, d: int) -> int {
    if d == 0 {
        0
    } else {
        sat(div_tz(n * (FX_ONE as int), d))
    }
}

/// A product of two 64-bit magnitudes fits in 128 bits.
proof fn lemma_u64_mul_fits(x: u64, y: u64)
    by (nonlinear_arith)
    ensures
        (x as int) * (y as int) < 0x1_0000_0000_0000_0000_0000_0000_0000_0000,
{
}

/// The magnitude of a raw scalar, as a `u64` so that `i64::MIN` needs no case.
fn mag(a: i64) -> (m: u64)
    ensures
        m == absi(a as int),
{
    if a >= 0 {
        a as u64
    } else if a == i64::MIN {
        9223372036854775808u64
    } else {
        (-a) as u64
    }
}

/// Clamp a non-negative magnitude to the raw range and give it a sign.
fn sign_clamp(m: u128, neg: bool) -> (r: i64)
    ensures
        r as int == if neg {
            sat(-(m as int))
        } else {
            sat(m as int)
        },
{
    let c: i64 = if m > i64::MAX as u128 {
        i64::MAX
    } else {
        m as i64
    };
    if neg {
        -c
    } else {
        c
    }
}

/// Saturating fixed-point addition.
pub fn fx_add(a: Fx, b: Fx) -> (r: Fx)
    ensures
        r as int == fx_add_spec(a as int, b as int),
{
    let s: i128 = a as i128 + b as i128;
    if s > i64::MAX as i128 {
        i64::MAX
    } else if s < -(i64::MAX as i128) {
        let m: i64 = i64::MAX;
        -m
    } else {
        s as i64
    }
}

/// Saturating fixed-point subtraction.
pub fn fx_sub(a: Fx, b: Fx) -> (r: Fx)
    ensures
        r as int == fx_sub_spec(a as int, b as int),
{
    let s: i128 = a as i128 - b as i128;
    if s > i64::MAX as i128 {
        i64::MAX
    } else if s < -(i64::MAX as i128) {
        let m: i64 = i64::MAX;
        -m
    } else {
        s as i64
    }
}

/// Saturating fixed-point negation.
pub fn fx_neg(a: Fx) -> (r: Fx)
    ensures
        r as int == fx_neg_spec(a as int),
{
    if a == i64::MIN {
        i64::MAX
    } else {
        -a
    }
}

/// Saturating fixed-point multiplication.
pub fn fx_mul(a: Fx, b: Fx) -> (r: Fx)
    ensures
        r as int == fx_mul_spec(a as int, b as int),
{
    let neg = (a < 0) != (b < 0);
    let ma = mag(a);
    let mb = mag(b);
    proof {
        lemma_u64_mul_fits(ma, mb);
    }
    let m: u128 = (ma as u128) * (mb as u128);
    let q: u128 = m / (FX_ONE as u128);
    proof {
        lemma_mag_product(a as int, b as int);
        assert(q == absi((a as int) * (b as int)) / (FX_ONE as int));
    }
    sign_clamp(q, neg)
}

/// Saturating fixed-point division; zero when the divisor is zero.
pub fn fx_div(a: Fx, b: Fx) -> (r: Fx)
    ensures
        r as int == fx_div_spec(a as int, b as int),
{
    if b == 0 {
        return 0;
    }
    let neg = (a < 0) != (b < 0);
    let ma = mag(a);
    proof {
        lemma_u64_mul_fits(ma, FX_ONE as u64);
    }
    let m: u128 = (ma as u128) * (FX_ONE as u128);
    let q: u128 = m / (mag(b) as u128);
    proof {
        assert((a as int) * (FX_ONE as int) == if a >= 0 {
            absi(a as int) * (FX_ONE as int)
        } else {
            -(absi(a as int) * (FX_ONE as int))
        }) by (nonlinear_arith);
        lemma_div_tz_signs(a as int, b as int);
    }
    sign_clamp(q, neg)
}

/// Divide a scalar by a plain positive integer, truncating toward zero.
pub fn fx_div_int(a: Fx, d: i64) -> (r: Fx)
    requires
        d > 0,
    ensures
        r as int == fx_div_int_spec(a as int, d as int),
        absi(r as int) <= absi(a as int),
{
    let q: u64 = mag(a) / (d as u64);
    proof {
        assert(absi(a as int) / (d as int) <= absi(a as int)) by (nonlinear_arith)
            requires
                d >= 1,
                absi(a as int) >= 0,
        ;
    }
    sign_clamp(q as u128, a < 0)
}

/// The scalar representing the plain integer `n`.
pub fn fx_from_int(n: i64) -> (r: Fx)
    ensures
        r as int == fx_from_int_spec(n as int),
{
    let neg = n < 0;
    let mn = mag(n);
    proof {
        lemma_u64_mul_fits(mn, FX_ONE as u64);
    }
    let m: u128 = (mn as u128) * (FX_ONE as u128);
    proof {
        assert((n as int) * (FX_ONE as int) == if n >= 0 {
            absi(n as int) * (FX_ONE as int)
        } else {
            -(absi(n as int) * (FX_ONE as int))
        }) by (nonlinear_arith);
    }
    sign_clamp(m, neg)
}

/// The scalar representing the fraction `n / d`.
pub fn fx_from_ratio(n: i64, d: i64) -> (r: Fx)
    ensures
        r as int == fx_from_ratio_spec(n as int, d as int),
{
    if d == 0 {
        return 0;
    }
    let neg = (n < 0) != (d < 0);
    let mn = mag(n);
    proof {
        lemma_u64_mul_fits(mn, FX_ONE as u64);
    }
    let m: u128 = (mn as u128) * (FX_ONE as u128);
    let q: u128 = m / (mag(d) as u128);
    proof {
        assert((n as int) * (FX_ONE as int) == if n >= 0 {
            absi(n as int) * (FX_ONE as int)
        } else {
            -(absi(n as int) * (FX_ONE as int))
        }) by (nonlinear_arith);
        lemma_div_tz_signs(n as int, d as int);
    }
    sign_clamp(q, neg)
}

/// The smaller of two scalars.
pub fn fx_min(a: Fx, b: Fx) -> (r: Fx)
    ensures
        r as int == if a as int <= b as int {
            a as int
        } else {
            b as int
        },
{
    if a <= b {
        a
    } else {
        b
    }
}

/// The larger of two scalars.
pub fn fx_max(a: Fx, b: Fx) -> (r: Fx)
    ensures
        r as int == if a as int >= b as int {
            a as int
        } else {
            b as int
        },
{
    if a >= b {
        a
    } else {
        b
    }
}

/// The magnitude of a scalar, clamped into the raw range.
pub fn fx_abs(a: Fx) -> (r: Fx)
    ensures
        r as int == sat(absi(a as int)),
{
    if a == i64::MIN {
        i64::MAX
    } else if a < 0 {
        -a
    } else {
        a
    }
}

/// `|a| * |b| == |a * b|`, and how the signed product relates to it.
proof fn lemma_mag_product(a: int, b: int)
    ensures
        absi(a) * absi(b) == absi(a * b),
        a * b == if (a < 0) != (b < 0) {
            -(absi(a) * absi(b))
        } else {
            absi(a) * absi(b)
        },
{
    assert(absi(a) * absi(b) == absi(a * b) && a * b == if (a < 0) != (b < 0) {
        -(absi(a) * absi(b))
    } else {
        absi(a) * absi(b)
    }) by (nonlinear_arith);
}

/// Truncating division of `a * 2^32` by `b` agrees with the sign-magnitude
/// computation the executable division performs.
proof fn lemma_div_tz_signs(a: int, b: int)
    requires
        b != 0,
    ensures
        div_tz(a * (FX_ONE as int), b) == if (a < 0) != (b < 0) {
            -((absi(a) * (FX_ONE as int)) / absi(b))
        } else {
            (absi(a) * (FX_ONE as int)) / absi(b)
        },
{
    assert(absi(a * (FX_ONE as int)) == absi(a) * (FX_ONE as int)) by (nonlinear_arith);
    assert(((a * (FX_ONE as int)) >= 0) == (a >= 0) || a * (FX_ONE as int) == 0)
        by (nonlinear_arith);
}

/// The integer square root, defined by counting up.
pub open spec fn spec_isqrt(n: int) -> int
    decreases n,
{
    if n <= 0 {
        0
    } else {
        let r = spec_isqrt(n - 1);
        if (r + 1) * (r + 1) <= n {
            r + 1
        } else {
            r
        }
    }
}

/// Raw result of the fixed-point square root: zero on negative input.
pub open spec fn spec_fx_sqrt(x: int) -> int {
    if x <= 0 {
        0
    } else {
        spec_isqrt(x * (FX_ONE as int))
    }
}

/// `spec_isqrt(n)` is the unique integer whose square brackets `n`.
pub proof fn lemma_isqrt_bounds(n: int)
    ensures
        spec_isqrt(n) >= 0,
        n >= 0 ==> spec_isqrt(n) * spec_isqrt(n) <= n,
        n >= 0 ==> n < (spec_isqrt(n) + 1) * (spec_isqrt(n) + 1),
    decreases n,
{
    if n <= 0 {
    } else {
        lemma_isqrt_bounds(n - 1);
        let r = spec_isqrt(n - 1);
        if (r + 1) * (r + 1) <= n {
            assert(n - 1 < (r + 1) * (r + 1));
            assert(n < (r + 2) * (r + 2)) by (nonlinear_arith)
                requires
                    r >= 0,
                    n <= (r + 1) * (r + 1),
            ;
        }
    }
}

/// Any integer whose square brackets `n` is `spec_isqrt(n)`.
pub proof fn lemma_isqrt_unique(n: int, r: int)
    requires
        r >= 0,
        r * r <= n,
        n < (r + 1) * (r + 1),
    ensures
        r == spec_isqrt(n),
{
    lemma_isqrt_bounds(n);
    let s = spec_isqrt(n);
    assert(r == s) by (nonlinear_arith)
        requires
            r >= 0,
            s >= 0,
            r * r <= n,
            n < (r + 1) * (r + 1),
            s * s <= n,
            n < (s + 1) * (s + 1),
    ;
}

/// The integer square root of a 128-bit value, by bisection.
fn isqrt_u128(n: u128) -> (r: u64)
    ensures
        r as int == spec_isqrt(n as int),
{
    let mut lo: u128 = 0;
    let mut hi: u128 = 0x1_0000_0000_0000_0000;
    proof {
        assert((0x1_0000_0000_0000_0000int) * (0x1_0000_0000_0000_0000int) > n as int)
            by (nonlinear_arith)
            requires
                n < 0x1_0000_0000_0000_0000_0000_0000_0000_0000,
        ;
    }
    while lo + 1 < hi
        invariant
            lo < hi,
            hi <= 0x1_0000_0000_0000_0000,
            (lo as int) * (lo as int) <= n as int,
            (n as int) < (hi as int) * (hi as int),
        decreases hi - lo,
    {
        let mid: u128 = lo + (hi - lo) / 2;
        let mid64: u64 = mid as u64;
        proof {
            lemma_u64_mul_fits(mid64, mid64);
        }
        let sq: u128 = (mid64 as u128) * (mid64 as u128);
        if sq <= n {
            lo = mid;
        } else {
            hi = mid;
        }
    }
    proof {
        lemma_isqrt_unique(n as int, lo as int);
    }
    lo as u64
}

/// The square root of a scalar, rounded down; zero on negative input.
pub fn fx_sqrt(x: Fx) -> (r: Fx)
    ensures
        r as int == spec_fx_sqrt(x as int),
        r >= 0,
{
    if x <= 0 {
        return 0;
    }
    proof {
        lemma_u64_mul_fits(x as u64, FX_ONE as u64);
    }
    let wide: u128 = (x as u128) * (FX_ONE as u128);
    let r = isqrt_u128(wide);
    proof {
        lemma_isqrt_bounds(wide as int);
        assert((wide as int) < 0x1_0000_0000_0000_0000_0000_0000) by (nonlinear_arith)
            requires
                wide as int == (x as int) * (FX_ONE as int),
                0 < x <= i64::MAX,
        ;
        assert(spec_isqrt(wide as int) < 0x1_0000_0000_0000) by (nonlinear_arith)
            requires
                spec_isqrt(wide as int) >= 0,
                spec_isqrt(wide as int) * spec_isqrt(wide as int) <= wide as int,
                (wide as int) < 0x1_0000_0000_0000_0000_0000_0000,
        ;
    }
    r as i64
}


/// The integer square root is monotone.
pub proof fn lemma_isqrt_monotone(m: int, n: int)
    requires
        0 <= m <= n,
    ensures
        spec_isqrt(m) <= spec_isqrt(n),
{
    lemma_isqrt_bounds(m);
    lemma_isqrt_bounds(n);
    let a = spec_isqrt(m);
    let b = spec_isqrt(n);
    assert(a <= b) by (nonlinear_arith)
        requires
            a >= 0,
            b >= 0,
            a * a <= m,
            m <= n,
            n < (b + 1) * (b + 1),
    ;
}

/// The integer square root of a plain 64-bit value.
pub fn int_sqrt(n: u64) -> (r: u64)
    ensures
        r as int == spec_isqrt(n as int),
{
    isqrt_u128(n as u128)
}


/// A ratio of a numerator at most its positive denominator stays in the
/// unit range.
pub proof fn lemma_from_ratio_bounds(n: int, d: int)
    requires
        0 <= n <= d,
        0 < d,
    ensures
        0 <= fx_from_ratio_spec(n, d) <= FX_ONE,
{
    assert(n * (FX_ONE as int) >= 0) by (nonlinear_arith)
        requires
            n >= 0,
    ;
    assert(0 <= (n * (FX_ONE as int)) / d <= FX_ONE) by (nonlinear_arith)
        requires
            0 <= n <= d,
            0 < d,
    ;
}

/// A ratio of positive numerator over a small positive denominator is
/// positive.
pub proof fn lemma_from_ratio_positive(n: int, d: int)
    requires
        0 < n,
        0 < d <= FX_ONE,
    ensures
        fx_from_ratio_spec(n, d) > 0,
{
    assert(n * (FX_ONE as int) >= FX_ONE) by (nonlinear_arith)
        requires
            n >= 1,
    ;
    assert((n * (FX_ONE as int)) / d >= 1) by (nonlinear_arith)
        requires
            n * (FX_ONE as int) >= FX_ONE,
            0 < d <= FX_ONE,
    ;
}


/// The scalar of a non-negative integer is non-negative.
pub proof fn lemma_from_int_nonneg(n: int)
    requires
        n >= 0,
    ensures
        fx_from_int_spec(n) >= 0,
{
    assert(n * (FX_ONE as int) >= 0) by (nonlinear_arith)
        requires
            n >= 0,
    ;
}

} // verus!
