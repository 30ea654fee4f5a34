//! A vector or quaternion scaled to unit length is one long, up to the
//! rounding of its components.

use crate::fixed::{
    floor_sqrt, fx_div, in_range, lemma_floor_sqrt_holds, sat, sum_squares3, sum_squares4, LIMIT,
    SCALE,
};
use crate::quat::{q_identity, q_length, q_normalize, Q4};
use crate::vector::{v3_length, v3_normalize, V3};
use vstd::prelude::*;

verus! {

/// The magnitude of a number.
pub open spec fn magnitude(x: int) -> int {
    if x < 0 {
        -x
    } else {
        x
    }
}

/// Whether a vector is one long up to rounding: no component exceeds
/// one in magnitude, and with each component one raw unit greater in
/// magnitude it is longer than one.
pub open spec fn is_unit(v: V3) -> bool {
    &&& -SCALE <= v.x <= SCALE
    &&& -SCALE <= v.y <= SCALE
    &&& -SCALE <= v.z <= SCALE
    &&& sum_squares3(magnitude(v.x) + 1, magnitude(v.y) + 1, magnitude(v.z) + 1) > SCALE * SCALE
}

/// [`is_unit`] for a quaternion.
pub open spec fn is_unit_quat(q: Q4) -> bool {
    &&& -SCALE <= q.x <= SCALE
    &&& -SCALE <= q.y <= SCALE
    &&& -SCALE <= q.z <= SCALE
    &&& -SCALE <= q.w <= SCALE
    &&& sum_squares4(
        magnitude(q.x) + 1,
        magnitude(q.y) + 1,
        magnitude(q.z) + 1,
        magnitude(q.w) + 1,
    ) > SCALE * SCALE
}

/// What holds of one component `x` of a vector of length `len`, once
/// divided by that length: with `q` the quotient, `q` is at most one in
/// magnitude, `q len` is no longer than `x` scaled by one, and a
/// quotient one raw unit greater in magnitude would be longer.
pub open spec fn unit_component(x: int, len: int) -> bool {
    let q = fx_div(x, len);
    &&& -SCALE <= q <= SCALE
    &&& (q * len) * (q * len) <= (x * SCALE) * (x * SCALE)
    &&& ((magnitude(q) + 1) * len) * ((magnitude(q) + 1) * len) > (x * SCALE) * (x * SCALE)
}

/// A component no greater in magnitude than the length it is divided
/// by gives a quotient as [`unit_component`] says.
pub proof fn lemma_unit_component(x: int, len: int)
    requires
        0 < len,
        -len <= x <= len,
    ensures
        unit_component(x, len),
{
    let s = SCALE as int;
    let m = magnitude(x);
    let n = m * s;
    let e = n / len;
    assert(0 <= n <= len * s) by (nonlinear_arith)
        requires
            0 <= m <= len,
            s > 0,
            n == m * s,
    ;
    assert(e * len <= n < (e + 1) * len && 0 <= e) by (nonlinear_arith)
        requires
            e == n / len,
            0 < len,
            0 <= n,
    ;
    assert(e <= s) by (nonlinear_arith)
        requires
            e * len <= n,
            n <= len * s,
            0 < len,
    ;
    assert(x * s == n || x * s == -n) by (nonlinear_arith)
        requires
            n == m * s,
            m == x || m == -x,
    ;
    let q = fx_div(x, len);
    assert(q == e || q == -e);
    assert(magnitude(q) == e);
    assert((q * len) * (q * len) == (e * len) * (e * len)) by (nonlinear_arith)
        requires
            q == e || q == -e,
    ;
    assert((x * s) * (x * s) == n * n) by (nonlinear_arith)
        requires
            x * s == n || x * s == -n,
    ;
    assert((e * len) * (e * len) <= n * n) by (nonlinear_arith)
        requires
            0 <= e * len <= n,
    ;
    assert(((e + 1) * len) * ((e + 1) * len) > n * n) by (nonlinear_arith)
        requires
            0 <= n < (e + 1) * len,
    ;
}

/// The square of a product is the product of the squares.
proof fn lemma_square_of_product(a: int, b: int)
    ensures
        (a * b) * (a * b) == (b * b) * (a * a),
{
    assert((a * b) * (a * b) == (b * b) * (a * a)) by (nonlinear_arith);
}

/// A factor can be taken into a sum of four.
proof fn lemma_into_sum(k: int, a: int, b: int, c: int, d: int)
    ensures
        k * (a + b + c + d) == k * a + k * b + k * c + k * d,
{
    assert(k * (a + b + c + d) == k * a + k * b + k * c + k * d) by (nonlinear_arith);
}

/// `k` times the sum of the squares of four numbers is the sum of the
/// squares of their products with `f`, where `k` is the square of `f`.
proof fn lemma_scaled_squares(f: int, a: int, b: int, c: int, d: int)
    ensures
        (f * f) * sum_squares4(a, b, c, d) == (a * f) * (a * f) + (b * f) * (b * f) + (c * f) * (c
            * f) + (d * f) * (d * f),
{
    lemma_square_of_product(a, f);
    lemma_square_of_product(b, f);
    lemma_square_of_product(c, f);
    lemma_square_of_product(d, f);
    lemma_into_sum(f * f, a * a, b * b, c * c, d * d);
}

/// No component of a vector exceeds its length in magnitude.
pub proof fn lemma_component_within_length(x: int, rest: int, len: int)
    requires
        in_range(x),
        rest >= 0,
        len == sat(floor_sqrt(x * x + rest)),
    ensures
        -len <= x <= len,
        0 <= len,
        len * len <= x * x + rest,
{
    let total = x * x + rest;
    assert(x * x >= 0) by (nonlinear_arith);
    lemma_floor_sqrt_holds(total);
    let root = floor_sqrt(total);
    if root <= LIMIT {
        assert(-len <= x <= len) by (nonlinear_arith)
            requires
                x * x <= total,
                total < (len + 1) * (len + 1),
                0 <= len,
        ;
    } else {
        assert(len * len <= root * root) by (nonlinear_arith)
            requires
                0 <= len <= root,
        ;
    }
}

/// What is longer, times `len`, than a vector of length `len` scaled
/// by one is longer than one.
proof fn lemma_longer_than_one(len: int, grown: int, squares: int)
    requires
        len > 0,
        len * len <= squares,
        (len * len) * grown > (SCALE * SCALE) * squares,
    ensures
        grown > SCALE * SCALE,
{
    let s2 = SCALE * SCALE;
    let l2 = len * len;
    assert(l2 > 0) by (nonlinear_arith)
        requires
            len > 0,
            l2 == len * len,
    ;
    assert(grown > s2) by (nonlinear_arith)
        requires
            l2 > 0,
            l2 <= squares,
            l2 * grown > s2 * squares,
            s2 > 0,
    ;
}

/// Scaling a vector to unit length gives a vector one long, up to
/// rounding. With `r` the result and `len` the length of `a`: `r` is
/// of unit length as [`is_unit`] says, and no longer than `a / len`.
pub proof fn lemma_normalized_is_unit(a: V3)
    requires
        in_range(a.x),
        in_range(a.y),
        in_range(a.z),
        v3_length(a) != 0,
    ensures
        ({
            let r = v3_normalize(a);
            let len = v3_length(a);
            &&& is_unit(r)
            &&& len * len * sum_squares3(r.x, r.y, r.z) <= SCALE * SCALE * sum_squares3(
                a.x,
                a.y,
                a.z,
            )
        }),
{
    reveal(v3_normalize);
    let s = SCALE as int;
    let len = v3_length(a);
    let r = v3_normalize(a);
    let (xx, yy, zz) = (a.x * a.x, a.y * a.y, a.z * a.z);
    assert(xx >= 0 && yy >= 0 && zz >= 0) by (nonlinear_arith)
        requires
            xx == a.x * a.x,
            yy == a.y * a.y,
            zz == a.z * a.z,
    ;
    lemma_component_within_length(a.x, yy + zz, len);
    lemma_component_within_length(a.y, xx + zz, len);
    lemma_component_within_length(a.z, xx + yy, len);
    lemma_unit_component(a.x, len);
    lemma_unit_component(a.y, len);
    lemma_unit_component(a.z, len);
    let (ex, ey, ez) = (magnitude(r.x) + 1, magnitude(r.y) + 1, magnitude(r.z) + 1);
    lemma_scaled_squares(len, r.x, r.y, r.z, 0);
    lemma_scaled_squares(s, a.x, a.y, a.z, 0);
    lemma_scaled_squares(len, ex, ey, ez, 0);
    lemma_longer_than_one(len, sum_squares3(ex, ey, ez), sum_squares3(a.x, a.y, a.z));
}

/// Scaling a quaternion to unit length gives a quaternion one long, up
/// to rounding, in the sense of [`lemma_normalized_is_unit`].
pub proof fn lemma_normalized_quat_is_unit(q: Q4)
    requires
        in_range(q.x),
        in_range(q.y),
        in_range(q.z),
        in_range(q.w),
        q_length(q) != 0,
    ensures
        ({
            let r = q_normalize(q);
            let len = q_length(q);
            &&& is_unit_quat(r)
            &&& len * len * sum_squares4(r.x, r.y, r.z, r.w) <= SCALE * SCALE * sum_squares4(
                q.x,
                q.y,
                q.z,
                q.w,
            )
        }),
{
    reveal(q_normalize);
    let s = SCALE as int;
    let len = q_length(q);
    let r = q_normalize(q);
    let (xx, yy, zz, ww) = (q.x * q.x, q.y * q.y, q.z * q.z, q.w * q.w);
    assert(xx >= 0 && yy >= 0 && zz >= 0 && ww >= 0) by (nonlinear_arith)
        requires
            xx == q.x * q.x,
            yy == q.y * q.y,
            zz == q.z * q.z,
            ww == q.w * q.w,
    ;
    lemma_component_within_length(q.x, yy + zz + ww, len);
    lemma_component_within_length(q.y, xx + zz + ww, len);
    lemma_component_within_length(q.z, xx + yy + ww, len);
    lemma_component_within_length(q.w, xx + yy + zz, len);
    lemma_unit_component(q.x, len);
    lemma_unit_component(q.y, len);
    lemma_unit_component(q.z, len);
    lemma_unit_component(q.w, len);
    let (ex, ey, ez, ew) = (
        magnitude(r.x) + 1,
        magnitude(r.y) + 1,
        magnitude(r.z) + 1,
        magnitude(r.w) + 1,
    );
    lemma_scaled_squares(len, r.x, r.y, r.z, r.w);
    lemma_scaled_squares(s, q.x, q.y, q.z, q.w);
    lemma_scaled_squares(len, ex, ey, ez, ew);
    lemma_longer_than_one(len, sum_squares4(ex, ey, ez, ew), sum_squares4(q.x, q.y, q.z, q.w));
}

/// The identity is of unit length.
pub proof fn lemma_identity_is_unit()
    ensures
        is_unit_quat(q_identity()),
{
    let s = SCALE as int;
    assert(1int * 1int + 1int * 1int + 1int * 1int + (s + 1) * (s + 1) > s * s) by (nonlinear_arith)
        requires
            s > 0,
    ;
}

/// A quaternion scaled to unit length is of unit length, whatever it
/// was before.
pub proof fn lemma_normalized_quat_or_identity(q: Q4)
    requires
        in_range(q.x),
        in_range(q.y),
        in_range(q.z),
        in_range(q.w),
    ensures
        is_unit_quat(q_normalize(q)),
{
    reveal(q_normalize);
    if q_length(q) != 0 {
        lemma_normalized_quat_is_unit(q);
    } else {
        lemma_identity_is_unit();
    }
}

} // verus!
