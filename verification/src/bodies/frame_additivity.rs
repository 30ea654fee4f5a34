//! How two time steps compare with one of twice the length.
//!
//! The integrator is semi-implicit: a step first changes the velocity
//! and then moves the body with the new velocity. The velocity after
//! two steps is therefore that after one step of twice the length, up
//! to rounding. The position is not: under gravity `g` two steps of
//! length `dt` leave the body `g dt^2` short of where one step of
//! length `2 dt` takes it. Without gravity the positions agree too.

use crate::bodies::{integrated, BodyModel, RigidbodyType};
use crate::fixed::{fx_add, fx_mul, in_range, quot, SCALE};
use crate::vector::{v3, v3_add, v3_scale, v3_zero, V3};
use vstd::prelude::*;

verus! {

/// Whether adding `rate dt` to `x` twice, or `rate (2 dt)` once, stays
/// within range at every turn, so that nothing is clamped.
pub open spec fn adds_unclamped(x: int, rate: int, dt: int) -> bool {
    let once = quot(rate * dt, SCALE as int);
    let double = quot(rate * (dt + dt), SCALE as int);
    &&& in_range(x)
    &&& in_range(dt + dt)
    &&& in_range(once)
    &&& in_range(double)
    &&& in_range(x + once)
    &&& in_range(x + once + once)
    &&& in_range(x + double)
}

/// [`adds_unclamped`] for each component of a vector.
pub open spec fn adds_unclamped_v3(x: V3, rate: V3, dt: int) -> bool {
    &&& adds_unclamped(x.x, rate.x, dt)
    &&& adds_unclamped(x.y, rate.y, dt)
    &&& adds_unclamped(x.z, rate.z, dt)
}

/// Whether two numbers differ by one raw unit at most.
pub open spec fn within_one(a: int, b: int) -> bool {
    -1 <= a - b <= 1
}

/// [`within_one`] for each component of a vector.
pub open spec fn within_one_v3(a: V3, b: V3) -> bool {
    within_one(a.x, b.x) && within_one(a.y, b.y) && within_one(a.z, b.z)
}

/// Adding `rate dt` twice comes to adding `rate (2 dt)` once, up to one
/// raw unit of rounding.
pub proof fn lemma_two_added_steps(x: int, rate: int, dt: int)
    requires
        adds_unclamped(x, rate, dt),
    ensures
        within_one(
            fx_add(fx_add(x, fx_mul(rate, dt)), fx_mul(rate, dt)),
            fx_add(x, fx_mul(rate, fx_add(dt, dt))),
        ),
{
    let p = rate * dt;
    assert(rate * (dt + dt) == p + p) by (nonlinear_arith)
        requires
            p == rate * dt,
    ;
}

/// [`lemma_two_added_steps`] for each component of a vector.
pub proof fn lemma_two_added_steps_v3(x: V3, rate: V3, dt: int)
    requires
        adds_unclamped_v3(x, rate, dt),
    ensures
        within_one_v3(
            v3_add(v3_add(x, v3_scale(rate, dt)), v3_scale(rate, dt)),
            v3_add(x, v3_scale(rate, fx_add(dt, dt))),
        ),
{
    reveal(v3_scale);
    lemma_two_added_steps(x.x, rate.x, dt);
    lemma_two_added_steps(x.y, rate.y, dt);
    lemma_two_added_steps(x.z, rate.z, dt);
}

/// Scaling by one changes nothing, and scaling the zero vector gives
/// the zero vector.
pub proof fn lemma_scale_trivial(v: V3, s: int)
    requires
        in_range(v.x),
        in_range(v.y),
        in_range(v.z),
    ensures
        v3_scale(v, SCALE as int) == v,
        v3_scale(v3_zero(), s) == v3_zero(),
{
    reveal(v3_scale);
    assert(0 * s == 0);
}

/// Velocity is frame-additive: under constant gravity and without
/// damping, the linear velocity of a dynamic body after two steps of
/// length `dt` is that after one step of length `2 dt`, up to one raw
/// unit in each component, as long as nothing is clamped on the way.
pub proof fn lemma_velocity_frame_additive(b: BodyModel, dt: int, gravity: V3)
    requires
        b.rbt == RigidbodyType::Dynamic,
        b.damping_linear == 0,
        adds_unclamped_v3(b.velocity.linear, gravity, dt),
    ensures
        within_one_v3(
            integrated(integrated(b, dt, gravity), dt, gravity).velocity.linear,
            integrated(b, fx_add(dt, dt), gravity).velocity.linear,
        ),
{
    let v = b.velocity.linear;
    let first = integrated(b, dt, gravity);
    lemma_scale_trivial(v, dt);
    lemma_scale_trivial(first.velocity.linear, dt);
    lemma_two_added_steps_v3(v, gravity, dt);
    assert(first.velocity.linear == v3_add(v, v3_scale(gravity, dt)));
}

/// Position is frame-additive where there is no gravity: without
/// gravity and damping, the center of a dynamic body after two steps of
/// length `dt` is that after one step of length `2 dt`, up to one raw
/// unit in each component, as long as nothing is clamped on the way.
pub proof fn lemma_position_frame_additive(b: BodyModel, dt: int)
    requires
        b.rbt == RigidbodyType::Dynamic,
        b.damping_linear == 0,
        in_range(b.velocity.linear.x),
        in_range(b.velocity.linear.y),
        in_range(b.velocity.linear.z),
        adds_unclamped_v3(b.collider.center, b.velocity.linear, dt),
    ensures
        within_one_v3(
            integrated(integrated(b, dt, v3_zero()), dt, v3_zero()).collider.center,
            integrated(b, fx_add(dt, dt), v3_zero()).collider.center,
        ),
        integrated(integrated(b, dt, v3_zero()), dt, v3_zero()).velocity.linear
            == b.velocity.linear,
{
    let v = b.velocity.linear;
    let first = integrated(b, dt, v3_zero());
    lemma_scale_trivial(v, dt);
    lemma_scale_trivial(v, fx_add(dt, dt));
    assert(first.velocity.linear == v);
    lemma_two_added_steps_v3(b.collider.center, v, dt);
}

} // verus!
