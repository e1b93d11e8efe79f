//! Trigonometric functions over fixed-point scalars.
//!
//! Sine and cosine reduce the angle into one period and evaluate an odd
//! polynomial on the first quadrant; the inverse sine uses the same kind of
//! polynomial on `[0, 1/2]` and a half-angle identity above it. Each
//! function's contract gives the computed value exactly.

use vstd::prelude::*;
use crate::fx::{
    Fx, FX_ONE, fx_add, fx_add_spec, fx_mul, fx_mul_spec, fx_neg, fx_neg_spec, fx_sqrt,
    fx_sub, fx_sub_spec, fx_div_int, fx_div_int_spec, spec_fx_sqrt,
};

verus! {

/// The scalar closest to the circle constant pi.
pub const FX_PI: i64 = 13493037705;

/// The scalar closest to two pi.
pub const FX_TWO_PI: i64 = 26986075409;

/// The scalar closest to pi over two.
pub const FX_HALF_PI: i64 = 6746518852;

/// The scalar closest to 1/6, the cubic sine coefficient.
pub const SIN_C3: i64 = 715827883;

/// The scalar closest to 1/120, the quintic sine coefficient.
pub const SIN_C5: i64 = 35791394;

/// The scalar closest to 1/5040, the septic sine coefficient.
pub const SIN_C7: i64 = 852176;

/// The scalar closest to 3/40, the quintic inverse-sine coefficient.
pub const ASIN_C5: i64 = 322122547;

/// The scalar closest to 5/112, the septic inverse-sine coefficient.
pub const ASIN_C7: i64 = 191739611;

/// The angle brought into `[0, 2*pi)` by shifting whole periods.
pub open spec fn spec_mod_two_pi(theta: int) -> int {
    theta % (FX_TWO_PI as int)
}

/// The first-quadrant sine polynomial `x - x^3/6 + x^5/120 - x^7/5040`.
pub open spec fn spec_sin_poly(x: int) -> int {
    let x2 = fx_mul_spec(x, x);
    let x3 = fx_mul_spec(x2, x);
    let x5 = fx_mul_spec(x3, x2);
    let x7 = fx_mul_spec(x5, x2);
    fx_sub_spec(
        fx_add_spec(fx_sub_spec(x, fx_mul_spec(x3, SIN_C3 as int)), fx_mul_spec(x5, SIN_C5 as int)),
        fx_mul_spec(x7, SIN_C7 as int),
    )
}

/// The sine of an angle: period reduction, then the quadrant-folded polynomial.
pub open spec fn spec_sin(theta: int) -> int {
    let a = spec_mod_two_pi(theta);
    if a < FX_HALF_PI {
        spec_sin_poly(a)
    } else if a < FX_PI {
        spec_sin_poly(FX_PI - a)
    } else if a < FX_PI + FX_HALF_PI {
        fx_neg_spec(spec_sin_poly(a - FX_PI))
    } else {
        fx_neg_spec(spec_sin_poly(FX_TWO_PI - a))
    }
}

/// The cosine of an angle, as the sine shifted a quarter period.
pub open spec fn spec_cos(theta: int) -> int {
    spec_sin(fx_add_spec(theta, FX_HALF_PI as int))
}

/// The small-argument inverse-sine polynomial `x + x^3/6 + 3x^5/40 + 5x^7/112`.
pub open spec fn spec_asin_poly(x: int) -> int {
    let x2 = fx_mul_spec(x, x);
    let x3 = fx_mul_spec(x2, x);
    let x5 = fx_mul_spec(x3, x2);
    let x7 = fx_mul_spec(x5, x2);
    fx_add_spec(
        fx_add_spec(fx_add_spec(x, fx_mul_spec(x3, SIN_C3 as int)), fx_mul_spec(x5, ASIN_C5 as int)),
        fx_mul_spec(x7, ASIN_C7 as int),
    )
}

/// The inverse sine of a magnitude at most one half.
pub open spec fn spec_asin_mag(m: int) -> int {
    if m <= FX_ONE / 2 {
        spec_asin_poly(m)
    } else {
        let half = fx_div_int_spec(fx_sub_spec(FX_ONE as int, m), 2);
        let inner = spec_asin_poly(spec_fx_sqrt(half));
        fx_sub_spec(FX_HALF_PI as int, fx_add_spec(inner, inner))
    }
}

/// The inverse sine of a scalar, clamped into `[-1, 1]` first.
pub open spec fn spec_asin(x: int) -> int {
    let c = if x > FX_ONE {
        FX_ONE as int
    } else if x < -(FX_ONE as int) {
        -(FX_ONE as int)
    } else {
        x
    };
    if c >= 0 {
        spec_asin_mag(c)
    } else {
        fx_neg_spec(spec_asin_mag(-c))
    }
}

/// Bring an angle into `[0, 2*pi)` by shifting whole periods.
fn mod_two_pi(theta: Fx) -> (r: Fx)
    ensures
        r as int == spec_mod_two_pi(theta as int),
        0 <= r < FX_TWO_PI,
{
    if theta >= 0 {
        let m: i64 = theta % FX_TWO_PI;
        proof {
            assert(theta as int % (FX_TWO_PI as int) == m as int);
        }
        m
    } else {
        let n: u64 = if theta == i64::MIN {
            9223372036854775808u64
        } else {
            (-theta) as u64
        };
        let m: u64 = n % (FX_TWO_PI as u64);
        proof {
            let t = theta as int;
            let tp = FX_TWO_PI as int;
            let k = n as int / tp;
            assert(n as int == tp * k + (m as int)) by {
                assert(n as int == tp * (n as int / tp) + (n as int) % tp);
            }
            if m == 0 {
                vstd::arithmetic::div_mod::lemma_fundamental_div_mod_converse(t, tp, -k, 0);
            } else {
                vstd::arithmetic::div_mod::lemma_fundamental_div_mod_converse(
                    t,
                    tp,
                    -k - 1,
                    tp - m as int,
                );
            }
        }
        if m == 0 {
            0
        } else {
            FX_TWO_PI - (m as i64)
        }
    }
}

/// Evaluate the first-quadrant sine polynomial.
fn sin_poly(x: Fx) -> (r: Fx)
    ensures
        r as int == spec_sin_poly(x as int),
{
    let x2 = fx_mul(x, x);
    let x3 = fx_mul(x2, x);
    let x5 = fx_mul(x3, x2);
    let x7 = fx_mul(x5, x2);
    fx_sub(
        fx_add(fx_sub(x, fx_mul(x3, SIN_C3)), fx_mul(x5, SIN_C5)),
        fx_mul(x7, SIN_C7),
    )
}

/// The sine of an angle in radians.
pub fn fx_sin(theta: Fx) -> (r: Fx)
    ensures
        r as int == spec_sin(theta as int),
{
    let a = mod_two_pi(theta);
    if a < FX_HALF_PI {
        sin_poly(a)
    } else if a < FX_PI {
        sin_poly(FX_PI - a)
    } else if a < FX_PI + FX_HALF_PI {
        fx_neg(sin_poly(a - FX_PI))
    } else {
        fx_neg(sin_poly(FX_TWO_PI - a))
    }
}

/// The cosine of an angle in radians.
pub fn fx_cos(theta: Fx) -> (r: Fx)
    ensures
        r as int == spec_cos(theta as int),
{
    fx_sin(fx_add(theta, FX_HALF_PI))
}

/// Evaluate the small-argument inverse-sine polynomial.
fn asin_poly(x: Fx) -> (r: Fx)
    ensures
        r as int == spec_asin_poly(x as int),
{
    let x2 = fx_mul(x, x);
    let x3 = fx_mul(x2, x);
    let x5 = fx_mul(x3, x2);
    let x7 = fx_mul(x5, x2);
    fx_add(
        fx_add(fx_add(x, fx_mul(x3, SIN_C3)), fx_mul(x5, ASIN_C5)),
        fx_mul(x7, ASIN_C7),
    )
}

/// The inverse sine of a scalar, clamped into `[-1, 1]` first.
pub fn fx_asin(x: Fx) -> (r: Fx)
    ensures
        r as int == spec_asin(x as int),
{
    let c: Fx = if x > FX_ONE {
        FX_ONE
    } else if x < -FX_ONE {
        -FX_ONE
    } else {
        x
    };
    let m: Fx = if c >= 0 {
        c
    } else {
        -c
    };
    let p: Fx = if m <= FX_ONE / 2 {
        asin_poly(m)
    } else {
        let half = fx_div_int(fx_sub(FX_ONE, m), 2);
        let inner = asin_poly(fx_sqrt(half));
        fx_sub(FX_HALF_PI, fx_add(inner, inner))
    };
    if c >= 0 {
        p
    } else {
        fx_neg(p)
    }
}

} // verus!
