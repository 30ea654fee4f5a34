//! A joint holds the position of one body between two limits. All
//! three kinds of joint clamp the body's position, taken along its own
//! direction from the origin, between the limits taken along the same
//! direction; a hinge takes the body's linear velocity away besides.

use crate::bodies::{BodyModel, RigidbodyComponent, VelocityModel};
use crate::fixed::{fx_max, fx_min};
use crate::vector::{v3_dot, v3_scale, v3_zero, Vec3, V3};
use vstd::prelude::*;

verus! {

/// bevy's `Entity`, the host's handle of an entity. Nothing is claimed
/// of it and nothing here looks inside one: a joint only carries the
/// handle of the body it holds.
#[verifier::external_type_specification]
#[verifier::external_body]
pub struct ExEntity(bevy::ecs::entity::Entity);

/// The kind of a joint.
#[derive(Clone, Copy, Debug, PartialEq, Eq, Structural)]
pub enum JointType {
    BallSocket,
    Slider,
    Hinge,
}

/// The least and the greatest value that something may take.
#[derive(Clone, Copy, Debug)]
pub struct MemberLimit<N> {
    pub min: N,
    pub max: N,
}

/// The body that a joint holds, with the joint's direction and limits.
#[derive(Clone, Copy, Debug)]
pub struct JointMember {
    pub entity: bevy::ecs::entity::Entity,
    pub direction: Vec3,
    pub limits: MemberLimit<Vec3>,
}

/// A joint on one body.
#[derive(Clone, Copy, Debug)]
pub struct Joint {
    pub member: JointMember,
    pub joint_type: JointType,
}

/// `x` held between `lo` and `hi`, for `lo <= hi`.
pub open spec fn clamped(x: int, lo: int, hi: int) -> int {
    fx_min(fx_max(x, lo), hi)
}

/// Whether the limits are in order along `direction`: the least does
/// not lie beyond the greatest.
pub open spec fn limits_ordered(min: V3, max: V3, direction: V3) -> bool {
    v3_dot(min, direction) <= v3_dot(max, direction)
}

/// The point on the line along `direction` whose coordinate is that of
/// `position`, held between those of the limits.
pub open spec fn clamped_position(min: V3, max: V3, position: V3, direction: V3) -> V3 {
    v3_scale(
        direction,
        clamped(v3_dot(position, direction), v3_dot(min, direction), v3_dot(max, direction)),
    )
}

impl JointMember {
    pub fn new(
        entity: bevy::ecs::entity::Entity,
        direction: Vec3,
        limits: MemberLimit<Vec3>,
    ) -> (r: Self)
        ensures
            r == (JointMember { entity, direction, limits }),
    {
        Self { entity, direction, limits }
    }
}

impl MemberLimit<Vec3> {
    pub fn new(min: Vec3, max: Vec3) -> (r: Self)
        ensures
            r == (MemberLimit::<Vec3> { min, max }),
    {
        Self { min, max }
    }

    /// Projects `position` onto `direction` and holds it between the
    /// limits, projected likewise.
    pub fn clamp_position(&self, position: Vec3, direction: Vec3) -> (r: Vec3)
        requires
            limits_ordered(self.min@, self.max@, direction@),
        ensures
            r@ == clamped_position(self.min@, self.max@, position@, direction@),
    {
        let pos_along_dir = position.dot(direction);
        let clamped_pos_along_dir = pos_along_dir.max(self.min.dot(direction)).min(
            self.max.dot(direction),
        );
        direction.scale(clamped_pos_along_dir)
    }
}

impl Joint {
    pub fn new(member: JointMember, joint_type: JointType) -> (r: Self)
        ensures
            r == (Joint { member, joint_type }),
    {
        Self { member, joint_type }
    }

    /// Whether this joint can be enforced on a body at `translation`:
    /// its limits are in order along the line from the origin to there.
    pub open spec fn enforceable(self, translation: V3) -> bool {
        limits_ordered(self.member.limits.min@, self.member.limits.max@, translation)
    }

    /// Tells whether the joint can be enforced on a body at
    /// `translation`.
    pub fn can_enforce(&self, translation: Vec3) -> (r: bool)
        ensures
            r == self.enforceable(translation@),
    {
        self.member.limits.min.dot(translation).le(self.member.limits.max.dot(translation))
    }

    /// Enforces the joint on the body `rb` at `translation`: moves the
    /// body to where the joint holds it and, for a hinge, stops it.
    pub fn enforce(&self, rb: &mut RigidbodyComponent, translation: &mut Vec3)
        requires
            self.enforceable(old(translation)@),
        ensures
            final(translation)@ == clamped_position(
                self.member.limits.min@,
                self.member.limits.max@,
                old(translation)@,
                old(translation)@,
            ),
            self.joint_type == JointType::Hinge ==> final(rb)@ == (BodyModel {
                velocity: VelocityModel { linear: v3_zero(), ..old(rb)@.velocity },
                ..old(rb)@
            }),
            self.joint_type != JointType::Hinge ==> *final(rb) == *old(rb),
    {
        match self.joint_type {
            JointType::BallSocket => self.enforce_ball_socket(translation),
            JointType::Slider => self.enforce_slider(translation),
            JointType::Hinge => self.enforce_hinge(rb, translation),
        }
    }

    fn enforce_ball_socket(&self, translation: &mut Vec3)
        requires
            self.enforceable(old(translation)@),
        ensures
            final(translation)@ == clamped_position(
                self.member.limits.min@,
                self.member.limits.max@,
                old(translation)@,
                old(translation)@,
            ),
    {
        let direction = *translation;
        *translation = self.member.limits.clamp_position(*translation, direction);
    }

    fn enforce_slider(&self, translation: &mut Vec3)
        requires
            self.enforceable(old(translation)@),
        ensures
            final(translation)@ == clamped_position(
                self.member.limits.min@,
                self.member.limits.max@,
                old(translation)@,
                old(translation)@,
            ),
    {
        let direction = *translation;
        *translation = self.member.limits.clamp_position(*translation, direction);
    }

    fn enforce_hinge(&self, rb: &mut RigidbodyComponent, translation: &mut Vec3)
        requires
            self.enforceable(old(translation)@),
        ensures
            final(translation)@ == clamped_position(
                self.member.limits.min@,
                self.member.limits.max@,
                old(translation)@,
                old(translation)@,
            ),
            final(rb)@ == (BodyModel {
                velocity: VelocityModel { linear: v3_zero(), ..old(rb)@.velocity },
                ..old(rb)@
            }),
    {
        rb.velocity.linear = Vec3::zero();
        let direction = *translation;
        *translation = self.member.limits.clamp_position(*translation, direction);
    }
}

} // verus!
