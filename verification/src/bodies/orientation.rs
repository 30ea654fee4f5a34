//! A body that turns keeps an orientation of unit length.

use crate::bodies::{integrated, turned, BodyModel, RigidbodyType, ANGULAR_DEAD_ZONE};
use crate::fixed::{fx_mul, in_range};
use crate::quat::{q_from_axis_angle, q_mul, Q4};
use crate::unit_length::{is_unit_quat, lemma_normalized_quat_or_identity};
use crate::vector::{v3_length, v3_normalize, V3};
use vstd::prelude::*;

verus! {

/// An orientation that a time step has turned, by an angular velocity
/// beyond the dead zone, is of unit length up to rounding: turning does
/// not let it drift.
pub proof fn lemma_turned_is_unit(rotation: Q4, angular: V3, dt: int)
    requires
        v3_length(angular) > ANGULAR_DEAD_ZONE,
    ensures
        is_unit_quat(turned(rotation, angular, dt)),
{
    let step = q_from_axis_angle(v3_normalize(angular), fx_mul(v3_length(angular), dt));
    let product = q_mul(step, rotation);
    assert(in_range(product.x) && in_range(product.y) && in_range(product.z) && in_range(
        product.w,
    )) by {
        reveal(q_mul);
    }
    lemma_normalized_quat_or_identity(product);
}

/// An orientation of unit length stays one through a time step, for
/// every kind of body and whether or not the body turns.
pub proof fn lemma_orientation_stays_unit(b: BodyModel, dt: int, gravity: V3)
    requires
        is_unit_quat(b.collider.rotation),
    ensures
        is_unit_quat(integrated(b, dt, gravity).collider.rotation),
{
    if b.rbt != RigidbodyType::Static {
        let after = integrated(b, dt, gravity);
        let angular = after.velocity.angular;
        if v3_length(angular) > ANGULAR_DEAD_ZONE {
            lemma_turned_is_unit(b.collider.rotation, angular, dt);
        }
    }
}

} // verus!
