//! What the resolution of a contact does to a body whose partner
//! cannot be moved, and to the momentum of two bodies of equal mass.

use crate::bodies::BodyModel;
use crate::collisions::collider_systems::{
    contact_impulse, correction, effective_inverse_mass, resolved,
};
use crate::collisions::ContactModel;
use crate::fixed::{fx_add, in_range, lemma_fx_div_self, lemma_fx_mul_neg, lemma_fx_mul_one};
use crate::vector::{v3_add, v3_neg, v3_scale, v3_zero, V3};
use vstd::prelude::*;

verus! {

/// A body that alone has inverse mass is moved by the whole depth.
pub proof fn lemma_whole_correction(normal: V3, depth: int, inv: int)
    requires
        inv != 0,
        in_range(inv),
        in_range(depth),
    ensures
        correction(normal, depth, inv, inv) == v3_scale(normal, depth),
{
    lemma_fx_div_self(inv);
    lemma_fx_mul_one(depth);
}

/// Where the second body of a contact has no inverse mass and the first
/// has, the second stays exactly as it is, and the first is moved along
/// the normal by the whole depth.
pub proof fn lemma_immovable_second(a: BodyModel, b: BodyModel, c: ContactModel)
    requires
        effective_inverse_mass(b) == 0,
        effective_inverse_mass(a) != 0,
        in_range(effective_inverse_mass(a)),
        in_range(c.penetration_depth),
    ensures
        resolved(a, b, c).1 == b,
        resolved(a, b, c).0.collider.center == v3_add(
            a.collider.center,
            v3_scale(c.normal, c.penetration_depth),
        ),
        resolved(a, b, c).0.collider.rotation == a.collider.rotation,
{
    lemma_whole_correction(c.normal, c.penetration_depth, effective_inverse_mass(a));
}

/// Where the first body of a contact has no inverse mass and the second
/// has, the first stays exactly as it is, and the second is moved
/// against the normal by the whole depth.
pub proof fn lemma_immovable_first(a: BodyModel, b: BodyModel, c: ContactModel)
    requires
        effective_inverse_mass(a) == 0,
        effective_inverse_mass(b) != 0,
        in_range(effective_inverse_mass(b)),
        in_range(c.penetration_depth),
    ensures
        resolved(a, b, c).0 == a,
        resolved(a, b, c).1.collider.center == v3_add(
            b.collider.center,
            v3_neg(v3_scale(c.normal, c.penetration_depth)),
        ),
        resolved(a, b, c).1.collider.rotation == b.collider.rotation,
{
    lemma_whole_correction(c.normal, c.penetration_depth, effective_inverse_mass(b));
}

/// The change that the impulse of a contact makes to the linear
/// velocity of its first body: the impulse times the body's inverse
/// mass, and nothing where there is no impulse.
pub open spec fn velocity_gain(a: BodyModel, b: BodyModel, c: ContactModel) -> V3 {
    let inv = effective_inverse_mass(a);
    match contact_impulse(a, b, c, fx_add(inv, effective_inverse_mass(b))) {
        Some(p) => v3_scale(p, inv),
        None => v3_zero(),
    }
}

/// Whether the first body of a contact can gain the velocity `gain`,
/// and the second lose it, without either result being clamped.
pub open spec fn exchange_unclamped(a: BodyModel, b: BodyModel, gain: V3) -> bool {
    let va = a.velocity.linear;
    let vb = b.velocity.linear;
    &&& in_range(va.x) && in_range(va.y) && in_range(va.z)
    &&& in_range(vb.x) && in_range(vb.y) && in_range(vb.z)
    &&& in_range(va.x + gain.x) && in_range(va.y + gain.y) && in_range(va.z + gain.z)
    &&& in_range(vb.x - gain.x) && in_range(vb.y - gain.y) && in_range(vb.z - gain.z)
}

/// Two bodies of equal mass keep their total momentum in a contact:
/// what the one gains in linear velocity the other loses, to the last
/// raw unit, as long as neither result is clamped.
pub proof fn lemma_equal_masses_keep_momentum(a: BodyModel, b: BodyModel, c: ContactModel)
    requires
        effective_inverse_mass(a) == effective_inverse_mass(b),
        effective_inverse_mass(a) != 0,
        in_range(effective_inverse_mass(a)),
        exchange_unclamped(a, b, velocity_gain(a, b, c)),
    ensures
        resolved(a, b, c).0.velocity.linear == v3_add(a.velocity.linear, velocity_gain(a, b, c)),
        resolved(a, b, c).1.velocity.linear == v3_add(
            b.velocity.linear,
            v3_neg(velocity_gain(a, b, c)),
        ),
        resolved(a, b, c).0.velocity.linear.x + resolved(a, b, c).1.velocity.linear.x
            == a.velocity.linear.x + b.velocity.linear.x,
        resolved(a, b, c).0.velocity.linear.y + resolved(a, b, c).1.velocity.linear.y
            == a.velocity.linear.y + b.velocity.linear.y,
        resolved(a, b, c).0.velocity.linear.z + resolved(a, b, c).1.velocity.linear.z
            == a.velocity.linear.z + b.velocity.linear.z,
{
    reveal(v3_scale);
    let inv = effective_inverse_mass(a);
    match contact_impulse(a, b, c, fx_add(inv, inv)) {
        Some(p) => {
            lemma_fx_mul_neg(p.x, inv);
            lemma_fx_mul_neg(p.y, inv);
            lemma_fx_mul_neg(p.z, inv);
        },
        None => {},
    }
}

} // verus!
