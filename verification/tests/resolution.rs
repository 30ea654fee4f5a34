use zphy::bodies::{Damping, RigidbodyComponent, Velocity};
use zphy::collisions::collider_systems::{get_collision_info, resolve_collision};
use zphy::collisions::{Collider, ContactInfo};
use zphy::fixed::Fixed;
use zphy::quat::Quat;
use zphy::vector::Vec3;

fn fx(x: f64) -> Fixed {
    Fixed::from_raw((x * 1e9).round() as i64)
}

fn val(x: Fixed) -> f64 {
    x.raw() as f64 / 1e9
}

fn vec3(x: f64, y: f64, z: f64) -> Vec3 {
    Vec3::new(fx(x), fx(y), fx(z))
}

fn unit_box(x: f64, y: f64, z: f64) -> Collider {
    Collider::from_cuboid(vec3(0.5, 0.5, 0.5), vec3(x, y, z), Quat::identity())
}

fn dynamic(mass: f64, collider: Collider, velocity: Vec3, restitution: f64) -> RigidbodyComponent {
    RigidbodyComponent::new_dynamic(
        fx(mass),
        collider,
        Fixed::zero(),
        velocity,
        Vec3::zero(),
        Vec3::zero(),
        Damping { linear: Fixed::zero(), angular: Fixed::zero() },
        fx(restitution),
    )
}

fn contact_of(a: &RigidbodyComponent, b: &RigidbodyComponent) -> ContactInfo {
    get_collision_info(&a.collider, &a.velocity, &b.collider, &b.velocity).expect("in contact")
}

fn normal_speed(a: &RigidbodyComponent, b: &RigidbodyComponent, normal: Vec3) -> f64 {
    val(a.velocity.linear.sub(b.velocity.linear).dot(normal))
}

#[test]
fn head_on_without_restitution_stops_both() {
    let mut a = dynamic(2.0, unit_box(-0.4, 0.0, 0.0), vec3(1.0, 0.0, 0.0), 0.0);
    let mut b = dynamic(2.0, unit_box(0.4, 0.0, 0.0), vec3(-1.0, 0.0, 0.0), 0.0);
    let c = contact_of(&a, &b);
    assert_eq!(c.normal, vec3(-1.0, 0.0, 0.0));
    resolve_collision(&mut a, &mut b, &c);
    assert!(normal_speed(&a, &b, c.normal).abs() < 1e-6);
    assert_eq!(a.velocity.linear, Vec3::zero());
    assert_eq!(b.velocity.linear, Vec3::zero());
}

#[test]
fn head_on_with_full_restitution_bounces_back() {
    let mut a = dynamic(2.0, unit_box(-0.4, 0.0, 0.0), vec3(1.0, 0.0, 0.0), 1.0);
    let mut b = dynamic(2.0, unit_box(0.4, 0.0, 0.0), vec3(-1.0, 0.0, 0.0), 1.0);
    let c = contact_of(&a, &b);
    let before = normal_speed(&a, &b, c.normal);
    resolve_collision(&mut a, &mut b, &c);
    let after = normal_speed(&a, &b, c.normal);
    assert!((before + 2.0).abs() < 1e-9);
    assert!((after - 2.0).abs() < 1e-6, "after = {after}");
    assert_eq!(a.velocity.linear, vec3(-1.0, 0.0, 0.0));
    assert_eq!(b.velocity.linear, vec3(1.0, 0.0, 0.0));
}

#[test]
fn restitution_is_the_lesser_of_the_two() {
    let mut a = dynamic(1.0, unit_box(-0.4, 0.0, 0.0), vec3(1.0, 0.0, 0.0), 1.0);
    let mut b = dynamic(1.0, unit_box(0.4, 0.0, 0.0), vec3(-1.0, 0.0, 0.0), 0.5);
    let c = contact_of(&a, &b);
    resolve_collision(&mut a, &mut b, &c);
    // v' = -e v with e = 0.5: relative speed 2 toward becomes 1 apart.
    assert_eq!(a.velocity.linear, vec3(-0.5, 0.0, 0.0));
    assert_eq!(b.velocity.linear, vec3(0.5, 0.0, 0.0));
}

#[test]
fn equal_masses_share_the_correction() {
    let mut a = dynamic(2.0, unit_box(-0.4, 0.0, 0.0), Vec3::zero(), 0.0);
    let mut b = dynamic(2.0, unit_box(0.4, 0.0, 0.0), Vec3::zero(), 0.0);
    let c = contact_of(&a, &b);
    assert_eq!(c.penetration_depth.raw(), 200_000_000);
    resolve_collision(&mut a, &mut b, &c);
    assert_eq!(a.collider.center, vec3(-0.5, 0.0, 0.0));
    assert_eq!(b.collider.center, vec3(0.5, 0.0, 0.0));
    // The corners have moved with the centers.
    assert_eq!(a.collider.vertex_info.vertices[7], vec3(0.0, 0.5, 0.5));
    assert_eq!(b.collider.vertex_info.vertices[0], vec3(0.0, -0.5, -0.5));
    assert!(get_collision_info(&a.collider, &a.velocity, &b.collider, &b.velocity).is_none());
}

#[test]
fn lighter_body_moves_further() {
    let mut a = dynamic(1.0, unit_box(-0.4, 0.0, 0.0), Vec3::zero(), 0.0);
    let mut b = dynamic(3.0, unit_box(0.4, 0.0, 0.0), Vec3::zero(), 0.0);
    let c = contact_of(&a, &b);
    resolve_collision(&mut a, &mut b, &c);
    // Inverse masses 1 and 1/3: shares 3/4 and 1/4 of 0.2.
    assert!((val(a.collider.center.x) + 0.55).abs() < 1e-8);
    assert!((val(b.collider.center.x) - 0.45).abs() < 1e-8);
}

#[test]
fn static_floor_is_never_displaced() {
    let floor_box = Collider::from_cuboid(vec3(5.0, 0.5, 5.0), vec3(0.0, -0.5, 0.0), Quat::identity());
    let mut floor = RigidbodyComponent::new_static(floor_box);
    let mut crate_body = dynamic(1.0, unit_box(0.0, 0.3, 0.0), vec3(0.0, -3.0, 0.0), 0.0);
    let before = floor;
    let c = contact_of(&crate_body, &floor);
    assert_eq!(c.normal, vec3(0.0, 1.0, 0.0));
    assert_eq!(c.penetration_depth.raw(), 200_000_000);
    resolve_collision(&mut crate_body, &mut floor, &c);
    assert_eq!(floor.collider.center, before.collider.center);
    assert_eq!(floor.collider.rotation, before.collider.rotation);
    assert_eq!(floor.velocity, before.velocity);
    assert_eq!(floor.collider.vertex_info.vertices, before.collider.vertex_info.vertices);
    // The whole overlap is taken out of the moving body.
    assert_eq!(crate_body.collider.center, vec3(0.0, 0.5, 0.0));
    assert_eq!(crate_body.velocity.linear, Vec3::zero());
    assert!(get_collision_info(
        &crate_body.collider,
        &crate_body.velocity,
        &floor.collider,
        &floor.velocity
    )
    .is_none());
}

#[test]
fn static_body_comes_first_and_still_stays() {
    let floor_box = Collider::from_cuboid(vec3(5.0, 0.5, 5.0), vec3(0.0, -0.5, 0.0), Quat::identity());
    let mut floor = RigidbodyComponent::new_static(floor_box);
    let mut crate_body = dynamic(1.0, unit_box(0.0, 0.3, 0.0), vec3(0.0, -3.0, 0.0), 1.0);
    let before = floor;
    let c = contact_of(&floor, &crate_body);
    assert_eq!(c.normal, vec3(0.0, -1.0, 0.0));
    resolve_collision(&mut floor, &mut crate_body, &c);
    assert_eq!(floor.collider.center, before.collider.center);
    assert_eq!(floor.velocity, before.velocity);
    assert_eq!(crate_body.collider.center, vec3(0.0, 0.5, 0.0));
    // Restitution of the floor is zero, and the lesser one counts.
    assert_eq!(crate_body.velocity.linear, Vec3::zero());
}

#[test]
fn two_static_bodies_are_left_alone() {
    let mut a = RigidbodyComponent::new_static(unit_box(0.0, 0.0, 0.0));
    let mut b = RigidbodyComponent::new_static(unit_box(0.5, 0.0, 0.0));
    let (a0, b0) = (a, b);
    let c = contact_of(&a, &b);
    resolve_collision(&mut a, &mut b, &c);
    assert_eq!(a.collider.center, a0.collider.center);
    assert_eq!(b.collider.center, b0.collider.center);
    assert_eq!(a.velocity, a0.velocity);
    assert_eq!(b.velocity, b0.velocity);
}

#[test]
fn separating_bodies_get_no_impulse() {
    let mut a = dynamic(1.0, unit_box(-0.4, 0.0, 0.0), vec3(-1.0, 0.0, 0.0), 1.0);
    let mut b = dynamic(1.0, unit_box(0.4, 0.0, 0.0), vec3(1.0, 0.0, 0.0), 1.0);
    let c = contact_of(&a, &b);
    resolve_collision(&mut a, &mut b, &c);
    assert_eq!(a.velocity.linear, vec3(-1.0, 0.0, 0.0));
    assert_eq!(b.velocity.linear, vec3(1.0, 0.0, 0.0));
    // They are still moved apart.
    assert_eq!(a.collider.center, vec3(-0.5, 0.0, 0.0));
}

#[test]
fn resolution_uses_the_velocities_in_the_contact() {
    let mut a = dynamic(1.0, unit_box(-0.4, 0.0, 0.0), vec3(1.0, 0.0, 0.0), 0.0);
    let mut b = dynamic(1.0, unit_box(0.4, 0.0, 0.0), vec3(-1.0, 0.0, 0.0), 0.0);
    let c = contact_of(&a, &b);
    // Something else changes a's velocity between detection and resolution.
    a.velocity = Velocity::new(vec3(4.0, 0.0, 0.0), Vec3::zero());
    resolve_collision(&mut a, &mut b, &c);
    // The impulse is that of the closing speed 2 found at detection.
    assert_eq!(a.velocity.linear, vec3(3.0, 0.0, 0.0));
    assert_eq!(b.velocity.linear, Vec3::zero());
}

#[test]
fn off_center_contact_point_spins_the_body() {
    let mut a = dynamic(1.0, unit_box(-0.4, 0.0, 0.0), vec3(1.0, 0.0, 0.0), 0.0);
    let mut b = dynamic(1.0, unit_box(0.4, 0.0, 0.0), vec3(-1.0, 0.0, 0.0), 0.0);
    let mut c = contact_of(&a, &b);
    c.contact_point_a = vec3(0.0, 0.5, 0.0);
    resolve_collision(&mut a, &mut b, &c);
    // Impulse (-1, 0, 0) at arm (0.4, 0.5, 0): torque (0, 0, 0.5), times 6.
    assert!((val(a.velocity.angular.z) - 3.0).abs() < 1e-6, "{:?}", a.velocity.angular);
    assert_eq!(b.velocity.angular, Vec3::zero());
}

#[test]
fn equal_masses_keep_their_total_momentum() {
    let mut a = dynamic(2.0, unit_box(-0.4, 0.1, 0.0), vec3(1.3, 0.2, -0.1), 0.6);
    let mut b = dynamic(2.0, unit_box(0.4, 0.0, 0.05), vec3(-0.7, 0.0, 0.4), 0.9);
    let before = a.velocity.linear.add(b.velocity.linear);
    let c = contact_of(&a, &b);
    resolve_collision(&mut a, &mut b, &c);
    assert_eq!(a.velocity.linear.add(b.velocity.linear), before);
    assert!(a.velocity.linear != vec3(1.3, 0.2, -0.1));
}
