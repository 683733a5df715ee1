//! Fixed-point arithmetic shared by the estimators and the controller.
//!
//! All physical quantities are carried as scaled integers: rates in millionths of a
//! sensor unit, times in microseconds, angles in rate units times microseconds.
use vstd::prelude::*;

verus! {

/// Fixed-point units per whole sensor (or encoder) unit.
pub const RATE_SCALE: i64 = 1_000_000;

/// Microseconds per second.
pub const MICROS_PER_SECOND: i64 = 1_000_000;

/// Division rounding toward negative infinity (for a positive divisor this is
/// what `/` means on `int`).
pub open spec fn floor_div(a: int, b: int) -> int {
    a / b
}

/// Division rounding toward zero, as Rust's integer `/` and a float-to-integer cast do.
pub open spec fn trunc_div(a: int, b: int) -> int {
    if a >= 0 {
        a / b
    } else {
        -((-a) / b)
    }
}

/// `v` limited to the closed range `[lo, hi]`.
pub open spec fn clamp(v: int, lo: int, hi: int) -> int {
    if v < lo {
        lo
    } else if v > hi {
        hi
    } else {
        v
    }
}

pub open spec fn fits_i64(v: int) -> bool {
    i64::MIN <= v <= i64::MAX
}

/// Division of `a` by a positive `b`, rounding toward negative infinity.
pub fn floor_div_i128(a: i128, b: i128) -> (r: i128)
    requires
        b > 0,
        a > i128::MIN + b,
    ensures
        r == floor_div(a as int, b as int),
{
    if a >= 0 {
        a / b
    } else {
        let n: i128 = -a;
        let q: i128 = (n + b - 1) / b;
        proof {
            let ai = a as int;
            let bi = b as int;
            let qi = q as int;
            assert(qi * bi <= -ai + bi - 1 < qi * bi + bi) by (nonlinear_arith)
                requires
                    qi == (-ai + bi - 1) / bi,
                    bi > 0,
                    -ai + bi - 1 >= 0,
            ;
            assert(-qi * bi <= ai < (-qi + 1) * bi) by (nonlinear_arith)
                requires
                    qi * bi <= -ai + bi - 1 < qi * bi + bi,
            ;
            assert(-qi == ai / bi) by (nonlinear_arith)
                requires
                    -qi * bi <= ai < (-qi + 1) * bi,
                    bi > 0,
            {
                vstd::arithmetic::div_mod::lemma_fundamental_div_mod(ai, bi);
            }
        }
        -q
    }
}

/// Division of `a` by a positive `b`, rounding toward zero.
pub fn trunc_div_i128(a: i128, b: i128) -> (r: i128)
    requires
        b > 0,
        a > i128::MIN,
    ensures
        r == trunc_div(a as int, b as int),
{
    if a >= 0 {
        a / b
    } else {
        let n: i128 = -a;
        -(n / b)
    }
}

/// `v` limited to the range of `i64`.
pub fn saturate_i64(v: i128) -> (r: i64)
    ensures
        r == clamp(v as int, i64::MIN as int, i64::MAX as int),
{
    if v < i64::MIN as i128 {
        i64::MIN
    } else if v > i64::MAX as i128 {
        i64::MAX
    } else {
        v as i64
    }
}

} // verus!
