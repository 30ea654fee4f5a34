use bevy::ecs::entity::Entity;
use zphy::bodies::{
    cube_inertia_tensor, standard_gravity, Damping, RigidBodyState, RigidbodyComponent,
    RigidbodyType, Velocity,
};
use zphy::collisions::{Collider, ColliderShape};
use zphy::fixed::Fixed;
use zphy::joints::joint_system::{Joint, JointMember, JointType, MemberLimit};
use zphy::matrix::Mat3;
use zphy::quat::Quat;
use zphy::rays::Ray;
use zphy::vector::Vec3;

fn fx(x: f64) -> Fixed {
    Fixed::from_raw((x * 1e9).round() as i64)
}

fn val(x: Fixed) -> f64 {
    x.raw() as f64 / 1e9
}

fn vec3(x: f64, y: f64, z: f64) -> Vec3 {
    Vec3::new(fx(x), fx(y), fx(z))
}

fn box_of(half: Vec3) -> Collider {
    Collider::from_cuboid(half, Vec3::zero(), Quat::identity())
}

#[test]
fn inertia_of_a_box() {
    // Mass 12, extents 1 x 2 x 3: 12 (4 + 9) / 12 and so on.
    let inertia = cube_inertia_tensor(fx(12.0), vec3(1.0, 2.0, 3.0));
    assert_eq!(inertia, Mat3::from_diagonal(vec3(13.0, 10.0, 5.0)));
}

#[test]
fn dynamic_body() {
    let collider = box_of(vec3(0.5, 1.0, 1.5));
    let body = RigidbodyComponent::new_dynamic(
        fx(12.0),
        collider,
        fx(0.3),
        vec3(1.0, 0.0, 0.0),
        vec3(0.0, 2.0, 0.0),
        vec3(0.0, 0.0, 3.0),
        Damping::default(),
        fx(0.8),
    );
    assert_eq!(body.rbt, RigidbodyType::Dynamic);
    assert_eq!(body.state, RigidBodyState::Awake);
    assert_eq!(body.inverse_mass.raw(), 83_333_333);
    assert_eq!(body.friction, fx(0.3));
    assert_eq!(body.restitution, fx(0.8));
    assert_eq!(body.velocity, Velocity::new(vec3(1.0, 0.0, 0.0), vec3(0.0, 2.0, 0.0)));
    assert_eq!(body.torque, vec3(0.0, 0.0, 3.0));
    assert_eq!(body.damping.linear.raw(), 50_000_000);
    assert_eq!(body.damping.angular.raw(), 50_000_000);
    let inv = body.inverse_inertia_tensor;
    assert_eq!(inv.x_axis.x.raw(), 1_000_000_000 / 13);
    assert_eq!(inv.y_axis.y.raw(), 100_000_000);
    assert_eq!(inv.z_axis.z.raw(), 200_000_000);
    assert_eq!(inv.x_axis.y.raw(), 0);
    assert_eq!(body.collider.center, collider.center);
    assert_eq!(RigidbodyType::from(body), RigidbodyType::Dynamic);
}

#[test]
fn friction_and_restitution_are_clamped() {
    let body = RigidbodyComponent::new_dynamic(
        fx(1.0),
        box_of(vec3(0.5, 0.5, 0.5)),
        fx(1.5),
        Vec3::zero(),
        Vec3::zero(),
        Vec3::zero(),
        Damping::default(),
        fx(-0.25),
    );
    assert_eq!(body.friction, Fixed::one());
    assert_eq!(body.restitution, Fixed::zero());
}

#[test]
fn shapes_without_geometry_get_no_inertia() {
    let mut collider = box_of(vec3(0.5, 0.5, 0.5));
    collider.collider_shape = ColliderShape::Sphere;
    let body = RigidbodyComponent::new_dynamic(
        fx(1.0),
        collider,
        Fixed::zero(),
        Vec3::zero(),
        Vec3::zero(),
        Vec3::zero(),
        Damping::default(),
        Fixed::zero(),
    );
    assert_eq!(body.inverse_inertia_tensor, Mat3::zero());
    assert_eq!(ColliderShape::default(), ColliderShape::Cuboid);
}

#[test]
fn static_body() {
    let body = RigidbodyComponent::new_static(box_of(vec3(5.0, 0.5, 5.0)));
    assert_eq!(body.rbt, RigidbodyType::Static);
    assert_eq!(body.inverse_mass, Fixed::zero());
    assert_eq!(body.inverse_inertia_tensor, Mat3::zero());
    assert_eq!(body.velocity, Velocity::zero());
    assert_eq!(body.restitution, Fixed::zero());
    assert_eq!(body.friction, Fixed::zero());
    assert_eq!(RigidbodyType::from(body), RigidbodyType::Static);
    assert_eq!(RigidBodyState::default(), RigidBodyState::Awake);
}

#[test]
fn kinematic_body() {
    let body = RigidbodyComponent::new_kinematic(fx(4.0), box_of(vec3(0.5, 0.5, 0.5)));
    assert_eq!(body.rbt, RigidbodyType::Kinematic);
    assert_eq!(body.inverse_mass.raw(), 250_000_000);
    assert_eq!(body.inverse_inertia_tensor, Mat3::zero());
    assert_eq!(body.velocity, Velocity::zero());
}

#[test]
fn inverse_inertia_in_world_space() {
    let body = RigidbodyComponent::new_dynamic(
        fx(12.0),
        box_of(vec3(0.5, 1.0, 1.5)),
        Fixed::zero(),
        Vec3::zero(),
        Vec3::zero(),
        Vec3::zero(),
        Damping::default(),
        Fixed::zero(),
    );
    assert_eq!(body.get_inverse_inertia_world(&Quat::identity()), body.inverse_inertia_tensor);
    // A quarter turn about z swaps the x and y entries.
    let turn = Quat::from_axis_angle(Vec3::unit_z(), fx(std::f64::consts::FRAC_PI_2));
    let world = body.get_inverse_inertia_world(&turn);
    assert!((val(world.x_axis.x) - 0.1).abs() < 1e-7);
    assert!((val(world.y_axis.y) - 1.0 / 13.0).abs() < 1e-7);
    assert!((val(world.z_axis.z) - 0.2).abs() < 1e-7);
    assert!(val(world.x_axis.y).abs() < 1e-7);
}

#[test]
fn gravity_by_default() {
    assert_eq!(standard_gravity(), vec3(0.0, -9.81, 0.0));
}

#[test]
fn ray_keeps_what_it_was_given() {
    let ray = Ray::new(vec3(1.0, 2.0, 3.0), vec3(0.0, 0.0, 1.0));
    assert_eq!(ray.get_start(), vec3(1.0, 2.0, 3.0));
    assert_eq!(ray.get_dir(), vec3(0.0, 0.0, 1.0));
}

#[test]
fn limits_clamp_along_the_direction() {
    let limits = MemberLimit::<Vec3>::new(vec3(0.0, -1.0, 0.0), vec3(0.0, 1.0, 0.0));
    let up = Vec3::unit_y();
    assert_eq!(limits.clamp_position(vec3(3.0, 5.0, 1.0), up), vec3(0.0, 1.0, 0.0));
    assert_eq!(limits.clamp_position(vec3(3.0, -5.0, 1.0), up), vec3(0.0, -1.0, 0.0));
    assert_eq!(limits.clamp_position(vec3(3.0, 0.5, 1.0), up), vec3(0.0, 0.5, 0.0));
}

fn hinge_on(limits: MemberLimit<Vec3>, joint_type: JointType) -> Joint {
    let member = JointMember::new(Entity::from_raw(7), Vec3::zero(), limits);
    assert_eq!(member.entity, Entity::from_raw(7));
    Joint::new(member, joint_type)
}

#[test]
fn hinge_stops_the_body_and_holds_it() {
    let limits = MemberLimit::<Vec3>::new(vec3(0.0, -1.0, 0.0), vec3(0.0, 1.0, 0.0));
    let joint = hinge_on(limits, JointType::Hinge);
    let mut body = RigidbodyComponent::new_kinematic(fx(1.0), box_of(vec3(0.5, 0.5, 0.5)));
    body.velocity = Velocity::new(vec3(1.0, 2.0, 3.0), vec3(0.0, 0.5, 0.0));
    let mut translation = vec3(0.0, 2.0, 0.0);
    assert!(joint.can_enforce(translation));
    joint.enforce(&mut body, &mut translation);
    // Along (0, 2, 0) the position reads 4 and the limits -2 and 2.
    assert_eq!(translation, vec3(0.0, 4.0, 0.0));
    assert_eq!(body.velocity.linear, Vec3::zero());
    assert_eq!(body.velocity.angular, vec3(0.0, 0.5, 0.0));
}

#[test]
fn other_joints_leave_the_velocity() {
    let limits = MemberLimit::<Vec3>::new(vec3(0.0, -1.0, 0.0), vec3(0.0, 1.0, 0.0));
    for kind in [JointType::BallSocket, JointType::Slider] {
        let joint = hinge_on(limits, kind);
        let mut body = RigidbodyComponent::new_kinematic(fx(1.0), box_of(vec3(0.5, 0.5, 0.5)));
        body.velocity = Velocity::new(vec3(1.0, 2.0, 3.0), Vec3::zero());
        let mut translation = vec3(0.0, 0.5, 0.0);
        assert!(joint.can_enforce(translation));
        joint.enforce(&mut body, &mut translation);
        // Along (0, 0.5, 0) the position reads 0.25 and the limits -0.5 and 0.5.
        assert_eq!(translation, vec3(0.0, 0.125, 0.0));
        assert_eq!(body.velocity.linear, vec3(1.0, 2.0, 3.0));
    }
}

#[test]
fn limits_out_of_order_cannot_be_enforced() {
    let limits = MemberLimit::<Vec3>::new(vec3(0.0, -1.0, 0.0), vec3(0.0, 1.0, 0.0));
    let joint = hinge_on(limits, JointType::Slider);
    assert!(!joint.can_enforce(vec3(0.0, -2.0, 0.0)));
    assert!(joint.can_enforce(Vec3::zero()));
}

#[test]
fn what_a_dynamic_body_can_be_built_on() {
    let good = box_of(vec3(0.5, 0.5, 0.5));
    assert!(RigidbodyComponent::can_build_dynamic(fx(1.0), &good));
    assert!(!RigidbodyComponent::can_build_dynamic(Fixed::zero(), &good));
    assert!(!RigidbodyComponent::can_build_dynamic(fx(-1.0), &good));
    // A box a hundred-thousandth wide has no moment of inertia left
    // about two of its axes after rounding.
    let flat = box_of(vec3(0.000_005, 0.000_005, 0.000_005));
    assert!(!RigidbodyComponent::can_build_dynamic(fx(1.0), &flat));
    let mut ball = flat;
    ball.collider_shape = ColliderShape::Sphere;
    assert!(RigidbodyComponent::can_build_dynamic(fx(1.0), &ball));
}
