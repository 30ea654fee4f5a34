//! Sine and cosine of a fixed-point angle in radians.
//!
//! The angle is first reduced modulo a full turn, rounded to a raw unit,
//! then folded into a quarter turn either side of zero, where both
//! functions are evaluated as alternating power series of eight terms in
//! nested form. The result is defined by that evaluation, rounding
//! included; how close it lies to the real sine is not stated here.

use crate::fixed::{fx_mul, fx_sub, quot, Fixed, SCALE};
use vstd::prelude::*;

verus! {

/// Half a turn in raw units.
pub const PI: i64 = 3_141_592_654;

/// A quarter turn in raw units.
pub const HALF_PI: i64 = 1_570_796_327;

/// A full turn in raw units.
pub const TAU: i64 = 6_283_185_307;

/// Number of terms in each series.
pub const TERMS: u8 = 8;

/// The angle reduced into `(PI - TAU, PI]`.
pub open spec fn wrap_angle(a: int) -> int {
    let r = a % (TAU as int);
    if r > PI {
        r - TAU
    } else {
        r
    }
}

/// Nested tail of the sine series from term `k` on:
/// `1 - x2 / (2k (2k + 1)) * tail(k + 1)`, and `1` beyond the last term.
pub open spec fn sin_tail(x2: int, k: int) -> int
    decreases TERMS - k,
{
    if k < 1 || k >= TERMS {
        SCALE as int
    } else {
        fx_sub(SCALE as int, fx_mul(quot(x2, 2 * k * (2 * k + 1)), sin_tail(x2, k + 1)))
    }
}

/// Nested tail of the cosine series from term `k` on:
/// `1 - x2 / ((2k - 1) 2k) * tail(k + 1)`, and `1` beyond the last term.
pub open spec fn cos_tail(x2: int, k: int) -> int
    decreases TERMS + 1 - k,
{
    if k < 1 || k > TERMS {
        SCALE as int
    } else {
        fx_sub(SCALE as int, fx_mul(quot(x2, (2 * k - 1) * (2 * k)), cos_tail(x2, k + 1)))
    }
}

/// Sine series at `x`, meant for `x` within a quarter turn of zero.
pub open spec fn sin_series(x: int) -> int {
    fx_mul(x, sin_tail(fx_mul(x, x), 1))
}

/// Cosine series at `x`, meant for `x` within a quarter turn of zero.
pub open spec fn cos_series(x: int) -> int {
    cos_tail(fx_mul(x, x), 1)
}

/// Sine of the angle with raw value `a`.
pub open spec fn fx_sin(a: int) -> int {
    let r = wrap_angle(a);
    if r > HALF_PI {
        sin_series(PI - r)
    } else if r < -HALF_PI {
        sin_series(-PI - r)
    } else {
        sin_series(r)
    }
}

/// Cosine of the angle with raw value `a`.
pub open spec fn fx_cos(a: int) -> int {
    let r = wrap_angle(a);
    if r > HALF_PI {
        -cos_series(PI - r)
    } else if r < -HALF_PI {
        -cos_series(-PI - r)
    } else {
        cos_series(r)
    }
}

fn sin_series_of(x: Fixed) -> (r: Fixed)
    ensures
        r@ == sin_series(x@),
{
    let x2 = x.mul(x);
    let one = Fixed::one();
    let mut acc = Fixed::one();
    let mut k: i64 = 7;
    while k >= 1
        invariant
            0 <= k <= 7,
            TERMS == 8,
            one@ == SCALE,
            x2@ == fx_mul(x@, x@),
            acc@ == sin_tail(x2@, k + 1),
        decreases k,
    {
        assert(1 <= 2 * k * (2 * k + 1) <= 210) by (nonlinear_arith)
            requires
                1 <= k <= 7,
        ;
        let d: i64 = 2 * k * (2 * k + 1);
        acc = one.sub(x2.div_int(d).mul(acc));
        k = k - 1;
    }
    x.mul(acc)
}

fn cos_series_of(x: Fixed) -> (r: Fixed)
    ensures
        r@ == cos_series(x@),
{
    let x2 = x.mul(x);
    let one = Fixed::one();
    let mut acc = Fixed::one();
    let mut k: i64 = 8;
    while k >= 1
        invariant
            0 <= k <= 8,
            TERMS == 8,
            one@ == SCALE,
            x2@ == fx_mul(x@, x@),
            acc@ == cos_tail(x2@, k + 1),
        decreases k,
    {
        assert(1 <= (2 * k - 1) * (2 * k) <= 240) by (nonlinear_arith)
            requires
                1 <= k <= 8,
        ;
        let d: i64 = (2 * k - 1) * (2 * k);
        acc = one.sub(x2.div_int(d).mul(acc));
        k = k - 1;
    }
    acc
}

/// Sine and cosine of `angle`, in that order.
pub fn sin_cos(angle: Fixed) -> (r: (Fixed, Fixed))
    ensures
        r.0@ == fx_sin(angle@),
        r.1@ == fx_cos(angle@),
{
    let a: i64 = angle.raw();
    let m: i64 = a % TAU;
    let e: i64 = if m < 0 {
        m + TAU
    } else {
        m
    };
    assert(e == (a as int) % (TAU as int));
    let w: i64 = if e > PI {
        e - TAU
    } else {
        e
    };
    if w > HALF_PI {
        let x = Fixed::from_raw(PI - w);
        (sin_series_of(x), cos_series_of(x).neg())
    } else if w < -HALF_PI {
        let x = Fixed::from_raw(-PI - w);
        (sin_series_of(x), cos_series_of(x).neg())
    } else {
        let x = Fixed::from_raw(w);
        (sin_series_of(x), cos_series_of(x))
    }
}

/// The angle zero has sine zero and cosine one, exactly.
pub proof fn lemma_sin_cos_of_zero()
    ensures
        fx_sin(0) == 0,
        fx_cos(0) == SCALE,
{
    let tail = sin_tail(0, 1);
    assert(0 * tail == 0);
    let next = cos_tail(0, 2);
    assert(0 * next == 0);
}

} // verus!
