use zphy::bodies::{
    apply_forces, standard_gravity, Damping, RigidbodyComponent, RigidbodyType,
};
use zphy::collisions::Collider;
use zphy::fixed::Fixed;
use zphy::quat::Quat;
use zphy::vector::Vec3;

fn fx(x: f64) -> Fixed {
    Fixed::from_raw((x * 1e9).round() as i64)
}

fn val(x: Fixed) -> f64 {
    x.raw() as f64 / 1e9
}

fn vec3(x: f64, y: f64, z: f64) -> Vec3 {
    Vec3::new(fx(x), fx(y), fx(z))
}

fn no_damping() -> Damping {
    Damping { linear: Fixed::zero(), angular: Fixed::zero() }
}

fn unit_box_at(center: Vec3) -> Collider {
    Collider::from_cuboid(vec3(0.5, 0.5, 0.5), center, Quat::identity())
}

fn falling_body() -> RigidbodyComponent {
    RigidbodyComponent::new_dynamic(
        fx(1.0),
        unit_box_at(Vec3::zero()),
        Fixed::zero(),
        Vec3::zero(),
        Vec3::zero(),
        Vec3::zero(),
        no_damping(),
        Fixed::zero(),
    )
}

#[test]
fn one_second_of_free_fall() {
    let mut body = falling_body();
    body.integrate(fx(1.0), standard_gravity());
    assert_eq!(body.velocity.linear.y.raw(), -9_810_000_000);
    assert_eq!(body.collider.center.y.raw(), -9_810_000_000);
    assert_eq!(body.velocity.linear.x.raw(), 0);
    assert_eq!(body.collider.center.x.raw(), 0);
    assert_eq!(body.collider.rotation, Quat::identity());
}

#[test]
fn velocity_adds_up_over_two_half_steps() {
    let mut twice = falling_body();
    twice.integrate(fx(0.25), standard_gravity());
    twice.integrate(fx(0.25), standard_gravity());
    let mut once = falling_body();
    once.integrate(fx(0.5), standard_gravity());
    assert_eq!(twice.velocity.linear.y.raw(), once.velocity.linear.y.raw());
    assert_eq!(once.velocity.linear.y.raw(), -4_905_000_000);
}

#[test]
fn position_after_two_half_steps_lags_by_g_dt_squared() {
    let mut twice = falling_body();
    twice.integrate(fx(0.25), standard_gravity());
    twice.integrate(fx(0.25), standard_gravity());
    let mut once = falling_body();
    once.integrate(fx(0.5), standard_gravity());
    // 9.81 * 0.25 * 0.25 = 0.613125
    assert_eq!(
        twice.collider.center.y.raw() - once.collider.center.y.raw(),
        613_125_000
    );
}

#[test]
fn position_adds_up_without_gravity() {
    let start = || {
        let mut b = falling_body();
        b.velocity.linear = vec3(1.5, -2.0, 0.25);
        b
    };
    let mut twice = start();
    twice.integrate(fx(0.1), Vec3::zero());
    twice.integrate(fx(0.1), Vec3::zero());
    let mut once = start();
    once.integrate(fx(0.2), Vec3::zero());
    assert_eq!(twice.collider.center, once.collider.center);
    assert_eq!(once.collider.center, vec3(0.3, -0.4, 0.05));
}

#[test]
fn damping_takes_its_share_whatever_the_step() {
    let mut body = falling_body();
    body.damping = Damping::default();
    body.velocity.linear = vec3(2.0, 0.0, 0.0);
    body.integrate(fx(0.001), Vec3::zero());
    assert_eq!(body.velocity.linear.x.raw(), 1_900_000_000);
}

#[test]
fn static_body_is_left_alone() {
    let mut body = RigidbodyComponent::new_static(unit_box_at(vec3(1.0, 2.0, 3.0)));
    body.velocity.linear = vec3(5.0, 5.0, 5.0);
    let before = body;
    body.integrate(fx(1.0), standard_gravity());
    assert_eq!(body.collider.center, before.collider.center);
    assert_eq!(body.collider.rotation, before.collider.rotation);
    assert_eq!(body.velocity, before.velocity);
    assert_eq!(body.collider.vertex_info.vertices, before.collider.vertex_info.vertices);
}

#[test]
fn kinematic_body_ignores_gravity_and_damping() {
    let mut body = RigidbodyComponent::new_kinematic(fx(2.0), unit_box_at(Vec3::zero()));
    body.velocity.linear = vec3(1.0, 0.0, 0.0);
    body.integrate(fx(0.5), standard_gravity());
    assert_eq!(body.rbt, RigidbodyType::Kinematic);
    assert_eq!(body.velocity.linear, vec3(1.0, 0.0, 0.0));
    assert_eq!(body.collider.center, vec3(0.5, 0.0, 0.0));
    assert_eq!(body.inverse_mass.raw(), 500_000_000);
}

#[test]
fn slow_spin_stays_in_the_dead_zone() {
    let mut body = falling_body();
    body.velocity.angular = vec3(0.0, 0.01, 0.0);
    body.integrate(fx(1.0), Vec3::zero());
    assert_eq!(body.collider.rotation, Quat::identity());
}

#[test]
fn quarter_turn_about_y() {
    let mut body = falling_body();
    let quarter = std::f64::consts::FRAC_PI_2;
    body.velocity.angular = vec3(0.0, quarter, 0.0);
    body.integrate(fx(1.0), Vec3::zero());
    let q = body.collider.rotation;
    let h = std::f64::consts::FRAC_1_SQRT_2;
    assert!((val(q.y) - h).abs() < 1e-6, "y = {}", val(q.y));
    assert!((val(q.w) - h).abs() < 1e-6, "w = {}", val(q.w));
    assert!(val(q.x).abs() < 1e-6 && val(q.z).abs() < 1e-6);
    // The local x axis now points along -z, and the collider has followed.
    let x_axis = body.collider.axes[0];
    assert!((val(x_axis.z) + 1.0).abs() < 1e-6, "axis = {:?}", x_axis);
    assert!(val(x_axis.x).abs() < 1e-6);
}

#[test]
fn torque_is_applied_in_every_step() {
    let mut body = falling_body();
    body.torque = vec3(0.0, 1.0, 0.0);
    body.integrate(fx(0.001), Vec3::zero());
    let first = body.velocity.angular.y.raw();
    body.integrate(fx(0.001), Vec3::zero());
    let second = body.velocity.angular.y.raw();
    // Unit cube of unit mass: I = 1/6 about each axis, so 6 rad/s^2.
    assert!((first - 6_000_000).abs() <= 10, "first = {first}");
    assert!((second - 12_000_000).abs() <= 20, "second = {second}");
}

#[test]
fn apply_forces_advances_every_body() {
    let mut bodies = vec![
        falling_body(),
        RigidbodyComponent::new_static(unit_box_at(vec3(0.0, -5.0, 0.0))),
    ];
    let floor = bodies[1];
    apply_forces(&mut bodies, fx(1.0), standard_gravity());
    assert_eq!(bodies.len(), 2);
    assert_eq!(bodies[0].collider.center.y.raw(), -9_810_000_000);
    assert_eq!(bodies[1].collider.center, floor.collider.center);
    assert_eq!(bodies[1].velocity, floor.velocity);
}
