//! Rigid bodies: their physical state, how they are built, and how one
//! time step advances them.

pub mod frame_additivity;
pub mod orientation;

use crate::collisions::{
    collider_refreshed, collider_synced, Collider, ColliderModel, ColliderShape,
};
use crate::fixed::{fx_add, fx_div, fx_mul, fx_sub, quot, Fixed, SCALE};
use crate::matrix::{
    m3_diagonal_inverse, m3_diagonal_nonzero, m3_from_diagonal, m3_mul, m3_mul_vec, m3_transpose,
    m3_zero, Mat3, M3,
};
use crate::quat::{q_from_axis_angle, q_mul, q_normalize, q_to_mat3, Quat, Q4};
use crate::vector::{v3, v3_add, v3_length, v3_normalize, v3_scale, v3_zero, Vec3, V3};
use vstd::prelude::*;

verus! {

/// How a body takes part in the simulation.
#[derive(Clone, Copy, PartialEq, Eq, Debug, Structural)]
pub enum RigidbodyType {
    /// Never moves; its inverse mass is zero.
    Static,
    /// Is moved by gravity, damping, torque and contacts.
    Dynamic,
    /// Moves with its velocity; gravity, damping and torque pass it by.
    Kinematic,
}

impl From<RigidbodyComponent> for RigidbodyType {
    /// The kind of the body.
    fn from(value: RigidbodyComponent) -> (r: Self) {
        value.rbt
    }
}

impl vstd::std_specs::convert::FromSpecImpl<RigidbodyComponent> for RigidbodyType {
    open spec fn obeys_from_spec() -> bool {
        true
    }

    open spec fn from_spec(value: RigidbodyComponent) -> Self {
        value.rbt
    }
}

/// Whether a body is simulated. Every body is treated as awake; the
/// tag is carried and not acted on.
#[derive(Clone, Copy, PartialEq, Eq, Debug, Structural)]
pub enum RigidBodyState {
    Asleep,
    Awake,
}

impl Default for RigidBodyState {
    fn default() -> (r: RigidBodyState)
        ensures
            r == RigidBodyState::Awake,
    {
        RigidBodyState::Awake
    }
}

/// The value of a [`Velocity`].
pub ghost struct VelocityModel {
    pub linear: V3,
    pub angular: V3,
}

/// Linear and angular velocity in world space.
#[derive(Clone, Copy, Debug, PartialEq, Eq, Structural)]
pub struct Velocity {
    pub linear: Vec3,
    pub angular: Vec3,
}

impl View for Velocity {
    type V = VelocityModel;

    open spec fn view(&self) -> VelocityModel {
        VelocityModel { linear: self.linear@, angular: self.angular@ }
    }
}

impl Velocity {
    pub fn new(linear: Vec3, angular: Vec3) -> (r: Self)
        ensures
            r == (Velocity { linear, angular }),
    {
        Self { linear, angular }
    }

    /// No motion at all.
    pub fn zero() -> (r: Self)
        ensures
            r@.linear == v3_zero(),
            r@.angular == v3_zero(),
    {
        Self { linear: Vec3::zero(), angular: Vec3::zero() }
    }
}

/// Raw value of the damping factor a body gets by default: 0.05.
pub const DEFAULT_DAMPING: i64 = 50_000_000;

/// The share of its linear and of its angular velocity that a body
/// loses in every step, whatever the length of the step.
#[derive(Copy, Clone, Debug, PartialEq, Eq, Structural)]
pub struct Damping {
    pub linear: Fixed,
    pub angular: Fixed,
}

impl Default for Damping {
    fn default() -> (r: Damping)
        ensures
            r.linear@ == DEFAULT_DAMPING,
            r.angular@ == DEFAULT_DAMPING,
    {
        Self {
            linear: Fixed::from_raw(DEFAULT_DAMPING),
            angular: Fixed::from_raw(DEFAULT_DAMPING),
        }
    }
}

/// The value of a [`RigidbodyComponent`].
pub ghost struct BodyModel {
    pub state: RigidBodyState,
    pub rbt: RigidbodyType,
    pub collider: ColliderModel,
    pub velocity: VelocityModel,
    pub inverse_mass: int,
    pub friction: int,
    pub torque: V3,
    pub damping_linear: int,
    pub damping_angular: int,
    pub inverse_inertia_tensor: M3,
    pub restitution: int,
}

/// A rigid body. Its pose is that of its collider, which it owns.
///
/// `inverse_inertia_tensor` is in the body's own frame. `torque` is not
/// used up: it acts on a dynamic body in every step. `friction` is
/// carried and takes no part in contact resolution.
#[derive(Clone, Copy, Debug)]
pub struct RigidbodyComponent {
    pub state: RigidBodyState,
    pub rbt: RigidbodyType,
    pub collider: Collider,
    pub velocity: Velocity,
    pub inverse_mass: Fixed,
    pub friction: Fixed,
    pub torque: Vec3,
    pub damping: Damping,
    pub inverse_inertia_tensor: Mat3,
    pub restitution: Fixed,
}

impl View for RigidbodyComponent {
    type V = BodyModel;

    open spec fn view(&self) -> BodyModel {
        BodyModel {
            state: self.state,
            rbt: self.rbt,
            collider: self.collider@,
            velocity: self.velocity@,
            inverse_mass: self.inverse_mass@,
            friction: self.friction@,
            torque: self.torque@,
            damping_linear: self.damping.linear@,
            damping_angular: self.damping.angular@,
            inverse_inertia_tensor: self.inverse_inertia_tensor@,
            restitution: self.restitution@,
        }
    }
}

/// Moment of inertia of a solid box of the given mass about one of its
/// axes, `p` and `q` being its full extents across that axis:
/// `mass (p^2 + q^2) / 12`.
pub open spec fn box_inertia(mass: int, p: int, q: int) -> int {
    quot(fx_mul(mass, fx_add(fx_mul(p, p), fx_mul(q, q))), 12)
}

/// Inertia tensor of a solid box of the given mass and full extents, in
/// its own frame.
pub open spec fn cube_inertia(mass: int, size: V3) -> M3 {
    m3_from_diagonal(
        v3(
            box_inertia(mass, size.y, size.z),
            box_inertia(mass, size.x, size.z),
            box_inertia(mass, size.x, size.y),
        ),
    )
}

/// `x` clamped into the unit interval.
pub open spec fn unit_clamp(x: int) -> int {
    if x < 0 {
        0
    } else if x > SCALE {
        SCALE as int
    } else {
        x
    }
}

/// Inverse inertia tensor that a dynamic body of the given mass gets
/// from its collider: that of the solid box for a cuboid, zero for a
/// shape without geometry.
pub open spec fn dynamic_inverse_inertia(mass: int, collider: ColliderModel) -> M3 {
    if collider.shape == ColliderShape::Cuboid {
        m3_diagonal_inverse(cube_inertia(mass, v3_add(collider.half_extents, collider.half_extents)))
    } else {
        m3_zero()
    }
}

/// Whether a dynamic body of the given mass can be built on the
/// collider: the mass is positive, and for a cuboid no moment of
/// inertia rounds to zero.
pub open spec fn dynamic_buildable(mass: int, collider: ColliderModel) -> bool {
    mass > 0 && (collider.shape == ColliderShape::Cuboid ==> m3_diagonal_nonzero(
        cube_inertia(mass, v3_add(collider.half_extents, collider.half_extents)),
    ))
}

/// The inverse inertia tensor `local` of a body turned into world
/// space by the rotation matrix `r`: `r local r^T`.
pub open spec fn inverse_inertia_world(local: M3, rotation: Q4) -> M3 {
    let r = q_to_mat3(rotation);
    m3_mul(m3_mul(r, local), m3_transpose(r))
}

/// What holds of every body that the constructors build and the step
/// keeps: the inverse mass is not negative and is zero for a static
/// body, only a dynamic body has an inertia tensor, restitution and
/// friction lie in the unit interval, and the collider's axes and
/// corners are those of its pose.
pub open spec fn body_wf(b: BodyModel) -> bool {
    &&& b.inverse_mass >= 0
    &&& b.rbt == RigidbodyType::Static ==> b.inverse_mass == 0
    &&& b.rbt != RigidbodyType::Dynamic ==> b.inverse_inertia_tensor == m3_zero()
    &&& 0 <= b.restitution <= SCALE
    &&& 0 <= b.friction <= SCALE
    &&& collider_synced(b.collider)
}

/// Inertia tensor of a solid box of the given mass and full extents.
pub fn cube_inertia_tensor(mass: Fixed, size: Vec3) -> (r: Mat3)
    ensures
        r@ == cube_inertia(mass@, size@),
{
    let w = size.x;
    let h = size.y;
    let d = size.z;
    let ix = mass.mul(h.mul(h).add(d.mul(d))).div_int(12);
    let iy = mass.mul(w.mul(w).add(d.mul(d))).div_int(12);
    let iz = mass.mul(w.mul(w).add(h.mul(h))).div_int(12);
    Mat3::from_diagonal(Vec3::new(ix, iy, iz))
}

fn clamp_unit(x: Fixed) -> (r: Fixed)
    ensures
        r@ == unit_clamp(x@),
{
    x.max(Fixed::zero()).min(Fixed::one())
}

impl RigidbodyComponent {
    /// Tells whether a dynamic body of the given mass can be built on
    /// the collider.
    pub fn can_build_dynamic(mass: Fixed, collider: &Collider) -> (r: bool)
        ensures
            r == dynamic_buildable(mass@, collider@),
    {
        if !mass.gt(Fixed::zero()) {
            return false;
        }
        match collider.collider_shape {
            ColliderShape::Cuboid => {
                let inertia = cube_inertia_tensor(
                    mass,
                    collider.half_extents.add(collider.half_extents),
                );
                !inertia.x_axis.x.is_zero() && !inertia.y_axis.y.is_zero()
                    && !inertia.z_axis.z.is_zero()
            },
            _ => true,
        }
    }

    /// A dynamic body of the given mass. `friction` and `restitution`
    /// are clamped into the unit interval.
    #[allow(clippy::too_many_arguments)]
    pub fn new_dynamic(
        mass: Fixed,
        collider: Collider,
        friction: Fixed,
        velocity: Vec3,
        angular_velocity: Vec3,
        torque: Vec3,
        damping: Damping,
        restitution: Fixed,
    ) -> (r: Self)
        requires
            dynamic_buildable(mass@, collider@),
        ensures
            r.state == RigidBodyState::Awake,
            r.rbt == RigidbodyType::Dynamic,
            r.collider == collider,
            r.velocity == (Velocity { linear: velocity, angular: angular_velocity }),
            r.inverse_mass@ == fx_div(SCALE as int, mass@),
            r.friction@ == unit_clamp(friction@),
            r.torque == torque,
            r.damping == damping,
            r.inverse_inertia_tensor@ == dynamic_inverse_inertia(mass@, collider@),
            r.restitution@ == unit_clamp(restitution@),
            collider_synced(collider@) ==> body_wf(r@),
    {
        let inverse_inertia_tensor = match collider.collider_shape {
            ColliderShape::Cuboid => cube_inertia_tensor(
                mass,
                collider.half_extents.add(collider.half_extents),
            ).diagonal_inverse(),
            _ => Mat3::zero(),
        };
        let inverse_mass = Fixed::one().div(mass);
        proof {
            lemma_reciprocal_sign(mass@);
        }
        Self {
            state: RigidBodyState::Awake,
            rbt: RigidbodyType::Dynamic,
            collider,
            inverse_mass,
            friction: clamp_unit(friction),
            velocity: Velocity::new(velocity, angular_velocity),
            torque,
            damping,
            inverse_inertia_tensor,
            restitution: clamp_unit(restitution),
        }
    }

    /// A body that never moves.
    pub fn new_static(collider: Collider) -> (r: Self)
        ensures
            r.state == RigidBodyState::Awake,
            r.rbt == RigidbodyType::Static,
            r.collider == collider,
            r@.velocity.linear == v3_zero(),
            r@.velocity.angular == v3_zero(),
            r.inverse_mass@ == 0,
            r.friction@ == 0,
            r@.torque == v3_zero(),
            r.damping.linear@ == DEFAULT_DAMPING,
            r.damping.angular@ == DEFAULT_DAMPING,
            r.inverse_inertia_tensor@ == m3_zero(),
            r.restitution@ == 0,
            collider_synced(collider@) ==> body_wf(r@),
    {
        Self {
            state: RigidBodyState::Awake,
            rbt: RigidbodyType::Static,
            inverse_mass: Fixed::zero(),
            friction: Fixed::zero(),
            velocity: Velocity::zero(),
            torque: Vec3::zero(),
            damping: Damping::default(),
            inverse_inertia_tensor: Mat3::zero(),
            restitution: Fixed::zero(),
            collider,
        }
    }

    /// A body of the given mass that moves only with its own velocity.
    pub fn new_kinematic(mass: Fixed, collider: Collider) -> (r: Self)
        requires
            mass@ > 0,
        ensures
            r.state == RigidBodyState::Awake,
            r.rbt == RigidbodyType::Kinematic,
            r.collider == collider,
            r@.velocity.linear == v3_zero(),
            r@.velocity.angular == v3_zero(),
            r.inverse_mass@ == fx_div(SCALE as int, mass@),
            r.friction@ == 0,
            r@.torque == v3_zero(),
            r.damping.linear@ == DEFAULT_DAMPING,
            r.damping.angular@ == DEFAULT_DAMPING,
            r.inverse_inertia_tensor@ == m3_zero(),
            r.restitution@ == 0,
            collider_synced(collider@) ==> body_wf(r@),
    {
        proof {
            lemma_reciprocal_sign(mass@);
        }
        Self {
            state: RigidBodyState::Awake,
            rbt: RigidbodyType::Kinematic,
            inverse_mass: Fixed::one().div(mass),
            friction: Fixed::zero(),
            collider,
            velocity: Velocity::zero(),
            torque: Vec3::zero(),
            damping: Damping::default(),
            inverse_inertia_tensor: Mat3::zero(),
            restitution: Fixed::zero(),
        }
    }

    /// The inverse inertia tensor in world space for a body turned by
    /// `rotation`.
    pub fn get_inverse_inertia_world(&self, rotation: &Quat) -> (r: Mat3)
        ensures
            r@ == inverse_inertia_world(self@.inverse_inertia_tensor, rotation@),
    {
        let rot_mat = rotation.to_mat3();
        rot_mat.mul_mat3(self.inverse_inertia_tensor).mul_mat3(rot_mat.transpose())
    }
}

/// Raw value of the angular speed up to which a body's orientation is
/// left as it is: 0.01 radians per second.
pub const ANGULAR_DEAD_ZONE: i64 = 10_000_000;

/// Raw value of the standard acceleration of gravity: 9.81.
pub const STANDARD_GRAVITY: i64 = 9_810_000_000;

/// Gravity as used where nothing else is asked for: `(0, -9.81, 0)`.
pub fn standard_gravity() -> (g: Vec3)
    ensures
        g@ == v3(0, -STANDARD_GRAVITY, 0),
{
    Vec3::new(Fixed::zero(), Fixed::from_raw(-STANDARD_GRAVITY), Fixed::zero())
}

/// The velocity `v` after one step's damping: `v (1 - damping)`.
pub open spec fn damped(v: V3, damping: int) -> V3 {
    v3_scale(v, fx_sub(SCALE as int, damping))
}

/// The velocity of a dynamic body after damping, gravity and torque
/// have acted on it for `dt`: linear `v (1 - d) + g dt`, angular
/// `w (1 - d) + (I^-1 torque) dt` with the inverse inertia tensor in
/// world space.
pub open spec fn accelerated(b: BodyModel, dt: int, gravity: V3) -> VelocityModel {
    let spin = m3_mul_vec(
        inverse_inertia_world(b.inverse_inertia_tensor, b.collider.rotation),
        b.torque,
    );
    VelocityModel {
        linear: v3_add(damped(b.velocity.linear, b.damping_linear), v3_scale(gravity, dt)),
        angular: v3_add(damped(b.velocity.angular, b.damping_angular), v3_scale(spin, dt)),
    }
}

/// The orientation `rotation` after turning with angular velocity
/// `angular` for `dt`: unchanged up to the dead zone, else the rotation
/// by `|angular| dt` about `angular` applied after it, scaled back to
/// unit length.
pub open spec fn turned(rotation: Q4, angular: V3, dt: int) -> Q4 {
    let speed = v3_length(angular);
    if speed > ANGULAR_DEAD_ZONE {
        q_normalize(
            q_mul(q_from_axis_angle(v3_normalize(angular), fx_mul(speed, dt)), rotation),
        )
    } else {
        rotation
    }
}

/// The body `b` after moving with velocity `v` for `dt`, its collider
/// following.
pub open spec fn moved(b: BodyModel, v: VelocityModel, dt: int) -> BodyModel {
    BodyModel {
        velocity: v,
        collider: collider_refreshed(
            ColliderModel {
                center: v3_add(b.collider.center, v3_scale(v.linear, dt)),
                rotation: turned(b.collider.rotation, v.angular, dt),
                ..b.collider
            },
        ),
        ..b
    }
}

/// The body `b` one time step `dt` later, contacts aside. A static body
/// stays as it is; a kinematic body moves with the velocity it has; a
/// dynamic body first has its velocity changed, then moves with the new
/// one.
pub open spec fn integrated(b: BodyModel, dt: int, gravity: V3) -> BodyModel {
    match b.rbt {
        RigidbodyType::Static => b,
        RigidbodyType::Kinematic => moved(b, b.velocity, dt),
        RigidbodyType::Dynamic => moved(b, accelerated(b, dt, gravity), dt),
    }
}

/// The values of a sequence of bodies.
pub open spec fn bodies_view(s: Seq<RigidbodyComponent>) -> Seq<BodyModel> {
    Seq::new(s.len(), |i: int| s[i]@)
}

impl RigidbodyComponent {
    /// Advances this body by one time step `dt`, contacts aside.
    pub fn integrate(&mut self, dt: Fixed, gravity: Vec3)
        ensures
            final(self)@ == integrated(old(self)@, dt@, gravity@),
            old(self).rbt == RigidbodyType::Static ==> *final(self) == *old(self),
    {
        match self.rbt {
            RigidbodyType::Static => {
                return ;
            },
            RigidbodyType::Kinematic => {},
            RigidbodyType::Dynamic => {
                let one = Fixed::one();
                let spin = self.get_inverse_inertia_world(&self.collider.rotation).mul_vec3(
                    self.torque,
                );
                let linear = self.velocity.linear.scale(one.sub(self.damping.linear)).add(
                    gravity.scale(dt),
                );
                let angular = self.velocity.angular.scale(one.sub(self.damping.angular)).add(
                    spin.scale(dt),
                );
                self.velocity = Velocity::new(linear, angular);
            },
        }
        self.collider.center = self.collider.center.add(self.velocity.linear.scale(dt));
        let angular_speed = self.velocity.angular.length();
        if angular_speed.gt(Fixed::from_raw(ANGULAR_DEAD_ZONE)) {
            let rotation_axis = self.velocity.angular.normalize();
            let delta_rotation = Quat::from_axis_angle(rotation_axis, angular_speed.mul(dt));
            self.collider.rotation = delta_rotation.mul_quat(self.collider.rotation).normalize();
        }
        self.collider.refresh();
    }
}

/// Advances every body by one time step `dt`, contacts aside.
pub fn apply_forces(bodies: &mut Vec<RigidbodyComponent>, dt: Fixed, gravity: Vec3)
    ensures
        final(bodies)@.len() == old(bodies)@.len(),
        forall|i: int|
            0 <= i < old(bodies)@.len() ==> (#[trigger] final(bodies)@[i])@ == integrated(
                old(bodies)@[i]@,
                dt@,
                gravity@,
            ),
        forall|i: int|
            0 <= i < old(bodies)@.len() && old(bodies)@[i].rbt == RigidbodyType::Static
                ==> #[trigger] final(bodies)@[i] == old(bodies)@[i],
{
    let n = bodies.len();
    let mut i: usize = 0;
    while i < n
        invariant
            0 <= i <= n,
            n == bodies@.len(),
            n == old(bodies)@.len(),
            forall|k: int|
                0 <= k < i ==> (#[trigger] bodies@[k])@ == integrated(
                    old(bodies)@[k]@,
                    dt@,
                    gravity@,
                ),
            forall|k: int|
                0 <= k < i && old(bodies)@[k].rbt == RigidbodyType::Static ==> #[trigger] bodies@[k]
                    == old(bodies)@[k],
            forall|k: int| i <= k < n ==> #[trigger] bodies@[k] == old(bodies)@[k],
        decreases n - i,
    {
        let mut body = bodies[i];
        body.integrate(dt, gravity);
        bodies[i] = body;
        i = i + 1;
    }
}

/// The reciprocal of a positive number is not negative.
pub proof fn lemma_reciprocal_sign(mass: int)
    requires
        mass > 0,
    ensures
        fx_div(SCALE as int, mass) >= 0,
{
    let n = SCALE * SCALE;
    assert(n / mass >= 0) by (nonlinear_arith)
        requires
            n >= 0,
            mass > 0,
    ;
}

} // verus!
