//! The names most callers need, and the engine's configuration.

pub use crate::bodies::{
    apply_forces, cube_inertia_tensor, standard_gravity, Damping, RigidBodyState,
    RigidbodyComponent, RigidbodyType, Velocity,
};
pub use crate::collisions::collider_systems::{
    detect_collisions, get_collision_info, get_overlap, project_collider, resolve_collision,
    update_vertices,
};
pub use crate::collisions::{Collider, ColliderShape, ColliderVertexInfo, ContactInfo};
pub use crate::fixed::Fixed;
pub use crate::matrix::Mat3;
pub use crate::quat::Quat;
pub use crate::simulation::step;
pub use crate::vector::Vec3;

use crate::bodies::{bodies_view, STANDARD_GRAVITY};
use crate::collisions::collider_systems::{pairs_view, same_but_caches};
use crate::simulation::{all_moved, no_contact, stepped};
use crate::vector::v3;
use vstd::prelude::*;

verus! {

/// The engine as a host installs it: the settings that hold for every
/// tick. Gravity is the only one.
#[derive(Clone, Copy, Debug)]
pub struct ZphyPlugin {
    pub gravity: Vec3,
}

impl Default for ZphyPlugin {
    /// The engine under standard gravity.
    fn default() -> (r: ZphyPlugin)
        ensures
            r.gravity@ == v3(0, -STANDARD_GRAVITY, 0),
    {
        ZphyPlugin { gravity: standard_gravity() }
    }
}

impl ZphyPlugin {
    /// Advances the simulation by one tick of length `dt` under the
    /// configured gravity. Returns the pairs of bodies whose contact was
    /// resolved.
    pub fn step(&self, bodies: &mut Vec<RigidbodyComponent>, dt: Fixed) -> (hits: Vec<
        (usize, usize),
    >)
        ensures
            final(bodies)@.len() == old(bodies)@.len(),
            bodies_view(final(bodies)@) == stepped(
                bodies_view(old(bodies)@),
                dt@,
                self.gravity@,
            ).0,
            pairs_view(hits@) == stepped(bodies_view(old(bodies)@), dt@, self.gravity@).1,
            forall|k: int|
                0 <= k < old(bodies)@.len() && old(bodies)@[k].rbt == RigidbodyType::Static
                    ==> same_but_caches(#[trigger] final(bodies)@[k], old(bodies)@[k]),
            no_contact(all_moved(bodies_view(old(bodies)@), dt@, self.gravity@)) ==> hits@.len()
                == 0 && bodies_view(final(bodies)@) == all_moved(
                bodies_view(old(bodies)@),
                dt@,
                self.gravity@,
            ),
    {
        step(bodies, dt, self.gravity)
    }
}

} // verus!
