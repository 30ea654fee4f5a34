//! How fast two bodies of equal mass part after meeting head-on.
//!
//! With restitution `e` and closing speed `s` the ideal parting speed
//! is `e s`: nothing for `e = 0`, all of it for `e = 1`. Each rounding
//! on the way costs less than one raw unit, which the bounds below
//! account for.

use crate::bodies::{BodyModel, RigidbodyType};
use crate::collisions::collider_systems::{effective_inverse_mass, normal_speed, resolved};
use crate::collisions::ContactModel;
use crate::fixed::{
    fx_add, fx_div, fx_min, fx_mul, in_range, lemma_fx_mul_neg, lemma_fx_mul_one, quot, SCALE,
};
use crate::vector::{v3, v3_add, v3_dot, v3_in_range, v3_neg, v3_scale, v3_sub, V3};
use vstd::prelude::*;

verus! {

/// The size of the impulse between two bodies of inverse mass `inv`
/// each that close in at normal speed `v < 0` with restitution `e`.
pub open spec fn impulse_size(v: int, e: int, inv: int) -> int {
    fx_div(fx_mul(-fx_add(SCALE as int, e), v), fx_add(inv, inv))
}

/// The speed that the impulse gives to, or takes from, each of the
/// two bodies.
pub open spec fn speed_gain(v: int, e: int, inv: int) -> int {
    fx_mul(impulse_size(v, e, inv), inv)
}

/// Whether the impulse between two bodies of inverse mass `inv` each,
/// closing in at normal speed `v`, can be computed without clamping.
pub open spec fn impulse_unclamped(v: int, e: int, inv: int) -> bool {
    &&& in_range(inv + inv)
    &&& in_range(v + v)
    &&& in_range(quot(quot((SCALE + e) * (-v), SCALE as int) * SCALE, inv + inv))
}

/// Two bodies of equal mass that close in at normal speed `v` part at
/// `e (-v)`, less what rounding takes: each gains `g`, and
/// `v + 2 g` lies no more than `3 + 2 inv` raw units below `e (-v)`
/// and not above it.
pub proof fn lemma_bounce(v: int, e: int, inv: int)
    requires
        v < 0,
        0 <= e <= SCALE,
        0 < inv,
        impulse_unclamped(v, e, inv),
    ensures
        impulse_size(v, e, inv) >= 0,
        speed_gain(v, e, inv) >= 0,
        e * (-v) - 3 * SCALE - 2 * inv < SCALE * (v + 2 * speed_gain(v, e, inv)) <= e * (-v),
{
    let s = SCALE as int;
    let bounce = s + e;
    let closing = -v;
    let p = bounce * closing;
    assert(p == s * closing + e * closing && (-bounce) * v == p && 0 <= e * closing && p <= 2 * s
        * closing) by (nonlinear_arith)
        requires
            p == bounce * closing,
            bounce == s + e,
            closing == -v,
            closing > 0,
            0 <= e <= s,
    ;
    let b = p / s;
    assert(0 <= b <= 2 * closing && b * s <= p < b * s + s) by (nonlinear_arith)
        requires
            b == p / s,
            s == 1_000_000_000,
            0 <= p <= 2 * s * closing,
    ;
    assert(fx_add(s, e) == bounce);
    assert(quot((-bounce) * v, s) == b);
    assert(fx_mul(-bounce, v) == b);
    let t = inv + inv;
    let n = b * s;
    let j = n / t;
    assert(0 <= j && j * t <= n < (j + 1) * t) by (nonlinear_arith)
        requires
            j == n / t,
            n >= 0,
            t > 0,
    ;
    assert(impulse_size(v, e, inv) == j);
    let m = j * inv;
    assert(2 * m == j * t && m >= 0) by (nonlinear_arith)
        requires
            m == j * inv,
            t == inv + inv,
            j >= 0,
            inv > 0,
    ;
    let g = m / s;
    assert(0 <= g && g * s <= m < g * s + s) by (nonlinear_arith)
        requires
            g == m / s,
            s == 1_000_000_000,
            0 <= m,
    ;
    assert(2 * g <= b) by (nonlinear_arith)
        requires
            g * s <= m,
            2 * m <= n,
            n == b * s,
            s == 1_000_000_000,
    ;
    assert(quot(j * inv, s) == g);
    assert(speed_gain(v, e, inv) == g);
    assert(e * (-v) == e * closing);
    let jt = j * t;
    assert((j + 1) * t == jt + t) by (nonlinear_arith)
        requires
            jt == j * t,
    ;
    let gs = g * s;
    let sc = s * closing;
    let ec = e * closing;
    let w = s * (v + 2 * g);
    assert(w == 2 * gs - sc) by (nonlinear_arith)
        requires
            w == s * (v + 2 * g),
            gs == g * s,
            sc == s * closing,
            closing == -v,
    ;
    assert(p == sc + ec);
    assert(gs <= m < gs + s);
    assert(2 * m == jt);
    assert(jt <= n < jt + t);
    assert(n <= p < n + s);
    assert(ec - 3 * s - 2 * inv < w <= ec);
    assert(SCALE * (v + 2 * speed_gain(v, e, inv)) == w);
}

/// Component `k` of a vector: 0 for x, 1 for y, anything else for z.
pub open spec fn component(v: V3, k: int) -> int {
    if k == 0 {
        v.x
    } else if k == 1 {
        v.y
    } else {
        v.z
    }
}

/// The vector along coordinate axis `k` with the given component
/// there.
pub open spec fn along_axis(k: int, c: int) -> V3 {
    v3(
        if k == 0 {
            c
        } else {
            0
        },
        if k == 1 {
            c
        } else {
            0
        },
        if k != 0 && k != 1 {
            c
        } else {
            0
        },
    )
}

/// The dot product with a unit vector along a coordinate axis is the
/// component along that axis, or its opposite for the opposite
/// vector.
pub proof fn lemma_dot_along_axis(u: V3, k: int, sign: int)
    requires
        v3_in_range(u),
        sign == 1 || sign == -1,
    ensures
        v3_dot(u, along_axis(k, sign * SCALE)) == sign * component(u, k),
{
    reveal(v3_dot);
    let c = component(u, k);
    lemma_fx_mul_one(c);
    lemma_fx_mul_neg(c, SCALE as int);
    assert(u.x * 0 == 0 && u.y * 0 == 0 && u.z * 0 == 0);
}

/// Scaling a vector along a coordinate axis scales its one component.
pub proof fn lemma_scale_along_axis(k: int, c: int, f: int)
    ensures
        v3_scale(along_axis(k, c), f) == along_axis(k, fx_mul(c, f)),
{
    reveal(v3_scale);
    assert(0 * f == 0);
}

/// Whether a contact between two bodies that meet along coordinate
/// axis `k` can be resolved without anything being clamped on the way.
pub open spec fn head_on_unclamped(a: BodyModel, b: BodyModel, c: ContactModel, k: int) -> bool {
    let va = component(a.velocity.linear, k);
    let vb = component(b.velocity.linear, k);
    let e = fx_min(a.restitution, b.restitution);
    let g = speed_gain(normal_speed(c), e, a.inverse_mass);
    &&& v3_in_range(a.velocity.linear)
    &&& v3_in_range(b.velocity.linear)
    &&& v3_in_range(v3_sub(a.velocity.linear, b.velocity.linear))
    &&& in_range(va - vb)
    &&& in_range(va + g) && in_range(va - g)
    &&& in_range(vb + g) && in_range(vb - g)
    &&& in_range(va - vb + 2 * g) && in_range(va - vb - 2 * g)
    &&& impulse_unclamped(normal_speed(c), e, a.inverse_mass)
}

/// Two bodies of equal mass that meet head-on along a coordinate axis
/// part at the closing speed times the lesser restitution, less what
/// rounding takes: with `v < 0` the normal speed before and `w` that
/// after, `w` lies no more than `3 + 2 inv` raw units below
/// `e (-v)` and not above it. Without restitution they stay together;
/// with restitution one they part as fast as they met.
pub proof fn lemma_head_on(a: BodyModel, b: BodyModel, c: ContactModel, k: int, sign: int)
    requires
        a.rbt != RigidbodyType::Static,
        b.rbt != RigidbodyType::Static,
        a.inverse_mass == b.inverse_mass,
        a.inverse_mass > 0,
        0 <= a.restitution <= SCALE,
        0 <= b.restitution <= SCALE,
        c.a_vel.linear == a.velocity.linear,
        c.b_vel.linear == b.velocity.linear,
        sign == 1 || sign == -1,
        c.normal == along_axis(k, sign * SCALE),
        normal_speed(c) < 0,
        head_on_unclamped(a, b, c, k),
    ensures
        ({
            let v = normal_speed(c);
            let e = fx_min(a.restitution, b.restitution);
            let after = resolved(a, b, c);
            let w = v3_dot(v3_sub(after.0.velocity.linear, after.1.velocity.linear), c.normal);
            e * (-v) - 3 * SCALE - 2 * a.inverse_mass < SCALE * w <= e * (-v)
        }),
{
    let s = SCALE as int;
    let inv = a.inverse_mass;
    let v = normal_speed(c);
    let e = fx_min(a.restitution, b.restitution);
    let va = a.velocity.linear;
    let vb = b.velocity.linear;
    let u = v3_sub(va, vb);
    lemma_bounce(v, e, inv);
    let j = impulse_size(v, e, inv);
    let g = speed_gain(v, e, inv);
    assert(effective_inverse_mass(a) == inv && effective_inverse_mass(b) == inv);
    lemma_dot_along_axis(u, k, sign);
    assert(v == sign * component(u, k));
    // The impulse and what each body gains from it.
    lemma_scale_along_axis(k, sign * s, j);
    lemma_fx_mul_one(j);
    lemma_fx_mul_neg(s, j);
    let p = v3_scale(c.normal, j);
    assert(p == along_axis(k, sign * j));
    lemma_scale_along_axis(k, sign * j, inv);
    lemma_fx_mul_neg(j, inv);
    assert(v3_scale(p, inv) == along_axis(k, sign * g));
    lemma_scale_along_axis(k, -(sign * j), inv);
    assert(v3_neg(p) == along_axis(k, -(sign * j)));
    assert(v3_scale(v3_neg(p), inv) == along_axis(k, -(sign * g)));
    let after = resolved(a, b, c);
    let wa = after.0.velocity.linear;
    let wb = after.1.velocity.linear;
    assert(wa == v3_add(va, along_axis(k, sign * g)));
    assert(wb == v3_add(vb, along_axis(k, -(sign * g))));
    assert(component(wa, k) == component(va, k) + sign * g);
    assert(component(wb, k) == component(vb, k) - sign * g);
    let w_u = v3_sub(wa, wb);
    assert(component(w_u, k) == component(u, k) + 2 * (sign * g));
    lemma_dot_along_axis(w_u, k, sign);
    assert(sign * (sign * g) == g);
}

} // verus!
