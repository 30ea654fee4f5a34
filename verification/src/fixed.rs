//! Signed decimal fixed-point numbers with nine fractional digits.
//!
//! A [`Fixed`] stands for the rational number `raw / SCALE`. Every operation
//! is total: a result that leaves the representable range is clamped to
//! `[-LIMIT, LIMIT]`, and quotients are rounded toward zero. The range is
//! symmetric, so negation is exact and `-(a - b)` is always `b - a`.

use vstd::prelude::*;

verus! {

/// Raw units per whole unit.
pub const SCALE: i64 = 1_000_000_000;

/// Largest raw magnitude a [`Fixed`] can hold.
pub const LIMIT: i64 = 0x7fff_ffff_ffff_ffff;

/// Clamps `x` into the symmetric representable range.
pub open spec fn sat(x: int) -> int {
    if x > LIMIT {
        LIMIT as int
    } else if x < -LIMIT {
        -(LIMIT as int)
    } else {
        x
    }
}

/// Whether `x` is a raw value that a [`Fixed`] can stand for.
pub open spec fn in_range(x: int) -> bool {
    -LIMIT <= x <= LIMIT
}

/// Quotient of `n` by `d` rounded toward zero. Unspecified for `d == 0`.
pub open spec fn quot(n: int, d: int) -> int {
    if d > 0 {
        if n >= 0 {
            n / d
        } else {
            -((-n) / d)
        }
    } else {
        if n >= 0 {
            -(n / (-d))
        } else {
            (-n) / (-d)
        }
    }
}

pub open spec fn fx_add(a: int, b: int) -> int {
    sat(a + b)
}

pub open spec fn fx_sub(a: int, b: int) -> int {
    sat(a - b)
}

pub open spec fn fx_mul(a: int, b: int) -> int {
    sat(quot(a * b, SCALE as int))
}

/// Unspecified for `b == 0`.
pub open spec fn fx_div(a: int, b: int) -> int {
    sat(quot(a * SCALE, b))
}

pub open spec fn fx_min(a: int, b: int) -> int {
    if a <= b {
        a
    } else {
        b
    }
}

pub open spec fn fx_max(a: int, b: int) -> int {
    if a >= b {
        a
    } else {
        b
    }
}

/// Whether `r` is the integer square root of `n`, rounded down.
pub open spec fn is_floor_sqrt(n: int, r: int) -> bool {
    0 <= r && r * r <= n < (r + 1) * (r + 1)
}

/// Integer square root of `n`, rounded down; zero for negative `n`.
pub open spec fn floor_sqrt(n: int) -> int {
    if n < 0 {
        0
    } else {
        choose|r: int| is_floor_sqrt(n, r)
    }
}

/// Sum of the squares of three numbers.
pub open spec fn sum_squares3(x: int, y: int, z: int) -> int {
    x * x + y * y + z * z
}

/// Sum of the squares of four numbers.
pub open spec fn sum_squares4(x: int, y: int, z: int, w: int) -> int {
    x * x + y * y + z * z + w * w
}

/// Length of the vector with the given raw components, rounded down
/// to a raw unit and clamped into range. The squares are summed
/// exactly: only the root is rounded.
pub open spec fn fx_norm3(x: int, y: int, z: int) -> int {
    sat(floor_sqrt(sum_squares3(x, y, z)))
}

/// [`fx_norm3`] for four components.
pub open spec fn fx_norm4(x: int, y: int, z: int, w: int) -> int {
    sat(floor_sqrt(sum_squares4(x, y, z, w)))
}

/// At most one integer is the rounded-down square root of `n`.
pub proof fn lemma_floor_sqrt_unique(n: int, r1: int, r2: int)
    requires
        is_floor_sqrt(n, r1),
        is_floor_sqrt(n, r2),
    ensures
        r1 == r2,
{
    if r1 < r2 {
        assert((r1 + 1) * (r1 + 1) <= r2 * r2) by (nonlinear_arith)
            requires
                0 <= r1 + 1 <= r2,
        ;
    } else if r2 < r1 {
        assert((r2 + 1) * (r2 + 1) <= r1 * r1) by (nonlinear_arith)
            requires
                0 <= r2 + 1 <= r1,
        ;
    }
}

/// A witness of [`is_floor_sqrt`] is the value of [`floor_sqrt`].
pub proof fn lemma_floor_sqrt_is(n: int, r: int)
    requires
        is_floor_sqrt(n, r),
    ensures
        floor_sqrt(n) == r,
{
    assert(n >= 0) by (nonlinear_arith)
        requires
            r * r <= n,
    ;
    let c = choose|c: int| is_floor_sqrt(n, c);
    lemma_floor_sqrt_unique(n, r, c);
}

/// Every number from zero on has a rounded-down square root. Returns
/// it.
pub proof fn lemma_floor_sqrt_exists(n: int) -> (r: int)
    requires
        n >= 0,
    ensures
        is_floor_sqrt(n, r),
    decreases n,
{
    if n == 0 {
        0
    } else {
        let before = lemma_floor_sqrt_exists(n - 1);
        let next = before + 1;
        if n < next * next {
            before
        } else {
            assert(next * next < (next + 1) * (next + 1)) by (nonlinear_arith)
                requires
                    next >= 0,
            ;
            next
        }
    }
}

/// The value of [`floor_sqrt`] is the rounded-down square root.
pub proof fn lemma_floor_sqrt_holds(n: int)
    requires
        n >= 0,
    ensures
        is_floor_sqrt(n, floor_sqrt(n)),
{
    let r = lemma_floor_sqrt_exists(n);
    lemma_floor_sqrt_is(n, r);
}

proof fn lemma_product_bound(a: int, b: int)
    requires
        in_range(a),
        in_range(b),
    ensures
        -(LIMIT * LIMIT) <= a * b <= LIMIT * LIMIT,
{
    let l = LIMIT as int;
    assert(-(l * l) <= a * b <= l * l) by (nonlinear_arith)
        requires
            -l <= a <= l,
            -l <= b <= l,
    ;
}

/// A fixed-point number. The least `i64` has no negation and is never
/// produced; read as a number it stands for `-LIMIT`.
#[derive(Clone, Copy, Debug, PartialEq, Eq, Structural)]
pub struct Fixed {
    raw: i64,
}

impl View for Fixed {
    type V = int;

    open spec fn view(&self) -> int {
        sat(self.raw_value() as int)
    }
}

fn quot_wide(n: i128, d: i128) -> (q: i128)
    requires
        d > 0,
        -(LIMIT * LIMIT) <= n <= LIMIT * LIMIT,
    ensures
        q == quot(n as int, d as int),
{
    if n >= 0 {
        n / d
    } else {
        let m: i128 = -n;
        let q: i128 = m / d;
        -q
    }
}

/// The square of a raw value, exactly.
fn square_wide(x: Fixed) -> (r: u128)
    ensures
        r == x@ * x@,
        r <= 0x3fff_ffff_ffff_ffff_0000_0000_0000_0001,
{
    let a: i64 = x.raw();
    let m: u128 = if a < 0 {
        (-a) as u128
    } else {
        a as u128
    };
    assert(m * m == a * a && m * m <= 0x3fff_ffff_ffff_ffff_0000_0000_0000_0001) by (nonlinear_arith)
        requires
            m == a || m == -a,
            0 <= m <= 0x7fff_ffff_ffff_ffff,
    ;
    m * m
}

/// The integer square root of `n`, rounded down, by bisection.
fn floor_sqrt_wide(n: u128) -> (r: u128)
    requires
        n < 0xffff_ffff_ffff_fffe_0000_0000_0000_0001,
    ensures
        is_floor_sqrt(n as int, r as int),
        r < 0xffff_ffff_ffff_ffff,
{
    let mut lo: u128 = 0;
    let mut hi: u128 = 0xffff_ffff_ffff_ffff;
    assert(hi * hi == 0xffff_ffff_ffff_fffe_0000_0000_0000_0001) by (nonlinear_arith)
        requires
            hi == 0xffff_ffff_ffff_ffff,
    ;
    while hi - lo > 1
        invariant
            0 <= lo < hi <= 0xffff_ffff_ffff_ffff,
            lo * lo <= n < hi * hi,
        decreases hi - lo,
    {
        let mid: u128 = lo + (hi - lo) / 2;
        assert(mid * mid <= 0xffff_ffff_ffff_fffe_0000_0000_0000_0001) by (nonlinear_arith)
            requires
                0 <= mid <= 0xffff_ffff_ffff_ffff,
        ;
        if mid * mid <= n {
            lo = mid;
        } else {
            hi = mid;
        }
    }
    lo
}

impl Fixed {
    pub closed spec fn raw_value(self) -> i64 {
        self.raw
    }

    /// The number with the given raw value, clamped into range.
    pub fn from_raw(raw: i64) -> (r: Fixed)
        ensures
            r@ == sat(raw as int),
    {
        if raw < -LIMIT {
            Fixed { raw: -LIMIT }
        } else {
            Fixed { raw }
        }
    }

    /// The whole number `n`, clamped into range.
    pub fn from_int(n: i64) -> (r: Fixed)
        ensures
            r@ == sat(n * SCALE),
    {
        let wide: i128 = (n as i128) * 1_000_000_000;
        Fixed::from_wide(wide)
    }

    pub fn zero() -> (r: Fixed)
        ensures
            r@ == 0,
    {
        Fixed { raw: 0 }
    }

    pub fn one() -> (r: Fixed)
        ensures
            r@ == SCALE,
    {
        Fixed { raw: SCALE }
    }

    /// The raw value: the number times [`SCALE`].
    pub fn raw(self) -> (r: i64)
        ensures
            r == self@,
    {
        if self.raw < -LIMIT {
            -LIMIT
        } else {
            self.raw
        }
    }

    fn from_wide(x: i128) -> (r: Fixed)
        ensures
            r@ == sat(x as int),
    {
        if x > LIMIT as i128 {
            Fixed { raw: LIMIT }
        } else if x < -(LIMIT as i128) {
            Fixed { raw: -LIMIT }
        } else {
            Fixed { raw: x as i64 }
        }
    }

    pub fn add(self, rhs: Fixed) -> (r: Fixed)
        ensures
            r@ == fx_add(self@, rhs@),
    {
        let a: i128 = self.raw() as i128;
        let b: i128 = rhs.raw() as i128;
        Fixed::from_wide(a + b)
    }

    pub fn sub(self, rhs: Fixed) -> (r: Fixed)
        ensures
            r@ == fx_sub(self@, rhs@),
    {
        let a: i128 = self.raw() as i128;
        let b: i128 = rhs.raw() as i128;
        Fixed::from_wide(a - b)
    }

    pub fn neg(self) -> (r: Fixed)
        ensures
            r@ == -self@,
    {
        let a: i64 = self.raw();
        Fixed { raw: -a }
    }

    pub fn mul(self, rhs: Fixed) -> (r: Fixed)
        ensures
            r@ == fx_mul(self@, rhs@),
    {
        let a: i128 = self.raw() as i128;
        let b: i128 = rhs.raw() as i128;
        proof {
            lemma_product_bound(a as int, b as int);
        }
        let p: i128 = a * b;
        Fixed::from_wide(quot_wide(p, SCALE as i128))
    }

    /// Quotient rounded toward zero.
    pub fn div(self, rhs: Fixed) -> (r: Fixed)
        requires
            rhs@ != 0,
        ensures
            r@ == fx_div(self@, rhs@),
    {
        let a: i128 = self.raw() as i128;
        let b: i128 = rhs.raw() as i128;
        proof {
            lemma_product_bound(a as int, SCALE as int);
        }
        let n: i128 = a * (SCALE as i128);
        if b > 0 {
            Fixed::from_wide(quot_wide(n, b))
        } else {
            let q: i128 = quot_wide(n, -b);
            assert(-(LIMIT * LIMIT) <= q <= LIMIT * LIMIT) by {
                lemma_quot_shrinks(n as int, -b as int);
            }
            Fixed::from_wide(-q)
        }
    }

    /// Quotient by the whole number `n`, rounded toward zero.
    pub fn div_int(self, n: i64) -> (r: Fixed)
        requires
            n > 0,
        ensures
            r@ == quot(self@, n as int),
    {
        let a: i128 = self.raw() as i128;
        let q: i128 = if a >= 0 {
            a / (n as i128)
        } else {
            -((-a) / (n as i128))
        };
        proof {
            lemma_quot_shrinks(a as int, n as int);
        }
        Fixed::from_wide(q)
    }

    /// Length of the vector `(x, y, z)`, rounded down to a raw unit.
    pub fn norm3(x: Fixed, y: Fixed, z: Fixed) -> (r: Fixed)
        ensures
            r@ == fx_norm3(x@, y@, z@),
    {
        let n: u128 = square_wide(x) + square_wide(y) + square_wide(z);
        let root: u128 = floor_sqrt_wide(n);
        proof {
            lemma_floor_sqrt_is(n as int, root as int);
        }
        Fixed::from_root(root)
    }

    /// Length of the vector `(x, y, z, w)`, rounded down to a raw unit.
    pub fn norm4(x: Fixed, y: Fixed, z: Fixed, w: Fixed) -> (r: Fixed)
        ensures
            r@ == fx_norm4(x@, y@, z@, w@),
    {
        let n: u128 = square_wide(x) + square_wide(y) + square_wide(z) + square_wide(w);
        let root: u128 = floor_sqrt_wide(n);
        proof {
            lemma_floor_sqrt_is(n as int, root as int);
        }
        Fixed::from_root(root)
    }

    fn from_root(x: u128) -> (r: Fixed)
        ensures
            r@ == sat(x as int),
    {
        if x > LIMIT as u128 {
            Fixed { raw: LIMIT }
        } else {
            Fixed { raw: x as i64 }
        }
    }

    pub fn lt(self, rhs: Fixed) -> (r: bool)
        ensures
            r == (self@ < rhs@),
    {
        self.raw() < rhs.raw()
    }

    pub fn le(self, rhs: Fixed) -> (r: bool)
        ensures
            r == (self@ <= rhs@),
    {
        self.raw() <= rhs.raw()
    }

    pub fn gt(self, rhs: Fixed) -> (r: bool)
        ensures
            r == (self@ > rhs@),
    {
        self.raw() > rhs.raw()
    }

    pub fn is_zero(self) -> (r: bool)
        ensures
            r == (self@ == 0),
    {
        self.raw == 0
    }

    pub fn min(self, rhs: Fixed) -> (r: Fixed)
        ensures
            r@ == fx_min(self@, rhs@),
            r == self || r == rhs,
    {
        if self.raw() <= rhs.raw() {
            self
        } else {
            rhs
        }
    }

    pub fn max(self, rhs: Fixed) -> (r: Fixed)
        ensures
            r@ == fx_max(self@, rhs@),
            r == self || r == rhs,
    {
        if self.raw() >= rhs.raw() {
            self
        } else {
            rhs
        }
    }
}

/// Rounding toward zero never grows the magnitude of the dividend.
pub proof fn lemma_quot_shrinks(n: int, d: int)
    requires
        d > 0,
    ensures
        n >= 0 ==> 0 <= quot(n, d) <= n,
        n <= 0 ==> n <= quot(n, d) <= 0,
{
    if n >= 0 {
        assert(0 <= n / d <= n) by (nonlinear_arith)
            requires
                n >= 0,
                d > 0,
        ;
    } else {
        let m = -n;
        assert(0 <= m / d <= m) by (nonlinear_arith)
            requires
                m >= 0,
                d > 0,
        ;
    }
}

/// Rounding toward zero treats a number and its opposite alike.
pub proof fn lemma_quot_neg(n: int, d: int)
    requires
        d != 0,
    ensures
        quot(-n, d) == -quot(n, d),
{
    if n == 0 {
        assert(0int / d == 0) by (nonlinear_arith)
            requires
                d != 0,
        ;
        assert(0int / (-d) == 0) by (nonlinear_arith)
            requires
                d != 0,
        ;
    }
}

/// The product of the opposite is the opposite of the product.
pub proof fn lemma_fx_mul_neg(a: int, b: int)
    ensures
        fx_mul(-a, b) == -fx_mul(a, b),
        fx_mul(a, -b) == -fx_mul(a, b),
        fx_mul(-a, -b) == fx_mul(a, b),
{
    assert((-a) * b == -(a * b) && a * (-b) == -(a * b) && (-a) * (-b) == a * b)
        by (nonlinear_arith);
    lemma_quot_neg(a * b, SCALE as int);
}

/// Multiplication does not mind the order of its factors.
pub proof fn lemma_fx_mul_commutes(a: int, b: int)
    ensures
        fx_mul(a, b) == fx_mul(b, a),
{
    assert(a * b == b * a) by (nonlinear_arith);
}

/// The quotient of the opposite is the opposite of the quotient.
pub proof fn lemma_fx_div_neg(a: int, b: int)
    requires
        b != 0,
    ensures
        fx_div(-a, b) == -fx_div(a, b),
{
    assert((-a) * SCALE == -(a * SCALE));
    lemma_quot_neg(a * SCALE, b);
}

/// Multiplying by one changes nothing.
pub proof fn lemma_fx_mul_one(a: int)
    requires
        in_range(a),
    ensures
        fx_mul(a, SCALE as int) == a,
        fx_mul(SCALE as int, a) == a,
{
    lemma_fx_mul_commutes(a, SCALE as int);
}

/// A number other than zero divided by itself is one.
pub proof fn lemma_fx_div_self(a: int)
    requires
        a != 0,
    ensures
        fx_div(a, a) == SCALE,
{
    let s = SCALE as int;
    if a > 0 {
        assert((a * s) / a == s) by (nonlinear_arith)
            requires
                a > 0,
        ;
        assert(a * s >= 0) by (nonlinear_arith)
            requires
                a > 0,
                s > 0,
        ;
    } else {
        let m = -a;
        assert((m * s) / m == s) by (nonlinear_arith)
            requires
                m > 0,
        ;
        assert(a * s == -(m * s)) by (nonlinear_arith)
            requires
                m == -a,
        ;
        assert(m * s >= 0) by (nonlinear_arith)
            requires
                m > 0,
                s > 0,
        ;
    }
}

} // verus!
