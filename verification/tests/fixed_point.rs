//! Exact checks of the fixed-point scalar operations and the
//! trigonometric approximations.

use raybird::fx::{
    fx_abs, fx_add, fx_div, fx_div_int, fx_from_int, fx_from_ratio, fx_max, fx_min, fx_mul,
    fx_neg, fx_sqrt, fx_sub, int_sqrt, Fx, FX_ONE,
};
use raybird::sensor::fx_pow_frac;
use raybird::trig::{fx_asin, fx_cos, fx_sin, FX_HALF_PI, FX_PI, FX_TWO_PI};

fn fx(v: f64) -> Fx {
    (v * FX_ONE as f64).round() as Fx
}

fn to_f(x: Fx) -> f64 {
    x as f64 / FX_ONE as f64
}

#[test]
fn mul_matches_exact_products() {
    assert_eq!(fx_mul(fx(2.5), fx(4.0)), fx(10.0));
    assert_eq!(fx_mul(fx(-2.5), fx(4.0)), fx(-10.0));
    assert_eq!(fx_mul(fx(0.5), fx(0.5)), fx(0.25));
    assert_eq!(fx_mul(0, fx(123.0)), 0);
    assert_eq!(fx_mul(FX_ONE, fx(7.25)), fx(7.25));
}

#[test]
fn mul_saturates_at_the_range_ends() {
    assert_eq!(fx_mul(i64::MAX, i64::MAX), i64::MAX);
    assert_eq!(fx_mul(i64::MAX, -i64::MAX), -i64::MAX);
}

#[test]
fn div_matches_exact_quotients() {
    assert_eq!(fx_div(fx(10.0), fx(4.0)), fx(2.5));
    assert_eq!(fx_div(fx(-10.0), fx(4.0)), fx(-2.5));
    assert_eq!(fx_div(fx(1.0), fx(3.0)), FX_ONE / 3);
    assert_eq!(fx_div(fx(5.0), 0), 0);
}

#[test]
fn add_sub_neg_behave() {
    assert_eq!(fx_add(fx(1.5), fx(2.25)), fx(3.75));
    assert_eq!(fx_sub(fx(1.5), fx(2.25)), fx(-0.75));
    assert_eq!(fx_neg(fx(4.0)), fx(-4.0));
    assert_eq!(fx_add(i64::MAX, i64::MAX), i64::MAX);
    assert_eq!(fx_abs(fx(-3.0)), fx(3.0));
    assert_eq!(fx_min(fx(2.0), fx(3.0)), fx(2.0));
    assert_eq!(fx_max(fx(2.0), fx(3.0)), fx(3.0));
    assert_eq!(fx_div_int(fx(9.0), 4), fx(2.25));
}

#[test]
fn conversions_hit_exact_values() {
    assert_eq!(fx_from_int(7), 7 * FX_ONE);
    assert_eq!(fx_from_int(-3), -3 * FX_ONE);
    assert_eq!(fx_from_ratio(1, 2), FX_ONE / 2);
    assert_eq!(fx_from_ratio(-3, 4), -(3 * FX_ONE / 4));
    assert_eq!(fx_from_ratio(5, 0), 0);
}

#[test]
fn sqrt_is_the_rounded_down_root() {
    assert_eq!(fx_sqrt(fx(4.0)), fx(2.0));
    assert_eq!(fx_sqrt(fx(9.0)), fx(3.0));
    assert_eq!(fx_sqrt(FX_ONE), FX_ONE);
    assert_eq!(fx_sqrt(0), 0);
    assert_eq!(fx_sqrt(fx(-1.0)), 0);
    let r = to_f(fx_sqrt(fx(2.0)));
    assert!((r - 2.0f64.sqrt()).abs() < 1e-9);
    assert_eq!(int_sqrt(1), 1);
    assert_eq!(int_sqrt(15), 3);
    assert_eq!(int_sqrt(16), 4);
}

#[test]
fn trig_tracks_the_reference_functions() {
    let cases = [0.0, 0.5, 1.0, 1.5707963, 2.0, 3.14159265, 4.5, 6.0, -1.0, -3.5, 10.0];
    for &t in cases.iter() {
        let s = to_f(fx_sin(fx(t)));
        let c = to_f(fx_cos(fx(t)));
        assert!((s - t.sin()).abs() < 2.5e-4, "sin({}) = {}", t, s);
        assert!((c - t.cos()).abs() < 2.5e-4, "cos({}) = {}", t, c);
    }
    for &x in [0.0, 0.2, 0.5, 0.7, 0.9, 0.99, 1.0, -0.4, -0.95].iter() {
        let a = to_f(fx_asin(fx(x)));
        assert!((a - x.asin()).abs() < 2e-3, "asin({}) = {}", x, a);
    }
    assert!((to_f(FX_PI) - std::f64::consts::PI).abs() < 1e-9);
    assert!((to_f(FX_TWO_PI) - 2.0 * std::f64::consts::PI).abs() < 1e-9);
    assert!((to_f(FX_HALF_PI) - std::f64::consts::PI / 2.0).abs() < 1e-9);
}

#[test]
fn pow_frac_tracks_the_reference_power() {
    for &(x, e) in [(0.25, 0.5), (0.5, 0.4545), (0.9, 0.1), (0.04, 0.4545), (1.0, 0.7)].iter() {
        let r = to_f(fx_pow_frac(fx(x), fx(e)));
        assert!((r - x.powf(e)).abs() < 2e-4, "{}^{} = {}", x, e, r);
    }
    assert_eq!(fx_pow_frac(fx(0.3), FX_ONE), fx(0.3));
    assert_eq!(fx_pow_frac(fx(0.3), 0), FX_ONE);
}
