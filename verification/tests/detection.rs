use zphy::bodies::Velocity;
use zphy::collisions::collider_systems::{get_collision_info, get_overlap, project_collider};
use zphy::collisions::{Collider, ColliderShape, ColliderVertexInfo};
use zphy::fixed::Fixed;
use zphy::quat::Quat;
use zphy::vector::Vec3;

fn fx(x: f64) -> Fixed {
    Fixed::from_raw((x * 1e9).round() as i64)
}

fn val(x: Fixed) -> f64 {
    x.raw() as f64 / 1e9
}

fn vec3(x: f64, y: f64, z: f64) -> Vec3 {
    Vec3::new(fx(x), fx(y), fx(z))
}

fn unit_box(x: f64, y: f64, z: f64) -> Collider {
    Collider::from_cuboid(vec3(0.5, 0.5, 0.5), vec3(x, y, z), Quat::identity())
}

fn turned_box(center: Vec3, axis: Vec3, angle: f64) -> Collider {
    let rotation = Quat::from_axis_angle(axis.normalize(), fx(angle)).normalize();
    Collider::from_cuboid(vec3(0.5, 0.5, 0.5), center, rotation)
}

fn at_rest() -> Velocity {
    Velocity::zero()
}

#[test]
fn corners_of_an_upright_box() {
    let info = ColliderVertexInfo::from_cuboid(
        &vec3(1.0, 2.0, 3.0),
        &vec3(0.5, 1.0, 1.5),
        &Quat::identity(),
    );
    let expected = [
        vec3(0.5, 1.0, 1.5),
        vec3(0.5, 1.0, 4.5),
        vec3(0.5, 3.0, 1.5),
        vec3(0.5, 3.0, 4.5),
        vec3(1.5, 1.0, 1.5),
        vec3(1.5, 1.0, 4.5),
        vec3(1.5, 3.0, 1.5),
        vec3(1.5, 3.0, 4.5),
    ];
    assert_eq!(info.vertices, expected);
}

#[test]
fn box_constructor_fills_axes_and_corners() {
    let c = unit_box(0.0, 0.0, 0.0);
    assert_eq!(c.collider_shape, ColliderShape::Cuboid);
    assert_eq!(c.axes, [Vec3::unit_x(), Vec3::unit_y(), Vec3::unit_z()]);
    assert_eq!(c.vertex_info.vertices[0], vec3(-0.5, -0.5, -0.5));
    assert_eq!(c.vertex_info.vertices[7], vec3(0.5, 0.5, 0.5));
    assert_eq!(c.half_extents, vec3(0.5, 0.5, 0.5));
}

#[test]
fn refresh_follows_the_pose() {
    let mut c = unit_box(0.0, 0.0, 0.0);
    c.center = vec3(10.0, 0.0, 0.0);
    c.refresh();
    assert_eq!(c.vertex_info.vertices[0], vec3(9.5, -0.5, -0.5));
    assert_eq!(c.vertex_info.vertices[7], vec3(10.5, 0.5, 0.5));
}

#[test]
fn parallel_boxes_have_six_candidate_axes() {
    let a = unit_box(0.0, 0.0, 0.0);
    let b = unit_box(0.6, 0.0, 0.0);
    let axes = a.get_axes(&b);
    // The cross products of parallel axes vanish; those of the six
    // perpendicular pairs stay.
    assert_eq!(axes.len(), 12);
    assert_eq!(axes[0], Vec3::unit_x());
    assert_eq!(axes[3], Vec3::unit_x());
    // x cross y = z is the first cross product to be kept.
    assert_eq!(axes[6], Vec3::unit_z());
}

#[test]
fn projection_of_a_unit_box() {
    let a = unit_box(2.0, 0.0, 0.0);
    let (lo, hi) = project_collider(&a, Vec3::unit_x());
    assert_eq!(lo.raw(), 1_500_000_000);
    assert_eq!(hi.raw(), 2_500_000_000);
}

#[test]
fn overlap_of_intervals() {
    assert_eq!(get_overlap(fx(0.0), fx(2.0), fx(1.5), fx(3.0)).raw(), 500_000_000);
    assert_eq!(get_overlap(fx(1.5), fx(3.0), fx(0.0), fx(2.0)).raw(), 500_000_000);
    assert_eq!(get_overlap(fx(0.0), fx(1.0), fx(1.0), fx(2.0)).raw(), 0);
    assert_eq!(get_overlap(fx(0.0), fx(1.0), fx(3.0), fx(4.0)).raw(), -2_000_000_000);
}

#[test]
fn overlapping_boxes_touch_along_the_shallow_axis() {
    let a = unit_box(0.0, 0.0, 0.0);
    let b = unit_box(0.8, 0.1, 0.0);
    let c = get_collision_info(&a, &at_rest(), &b, &at_rest()).expect("boxes overlap");
    assert_eq!(c.penetration_depth.raw(), 200_000_000);
    // From b toward a: against x.
    assert_eq!(c.normal, vec3(-1.0, 0.0, 0.0));
    assert_eq!(c.contact_point_a, a.center);
    assert_eq!(c.contact_point_b, b.center);
}

#[test]
fn contact_keeps_the_velocities_it_was_found_with() {
    let a = unit_box(0.0, 0.0, 0.0);
    let b = unit_box(0.8, 0.0, 0.0);
    let va = Velocity::new(vec3(1.0, 0.0, 0.0), vec3(0.0, 0.1, 0.0));
    let vb = Velocity::new(vec3(-2.0, 0.0, 0.0), Vec3::zero());
    let c = get_collision_info(&a, &va, &b, &vb).expect("boxes overlap");
    assert_eq!(c.a_vel, va);
    assert_eq!(c.b_vel, vb);
}

#[test]
fn detection_is_symmetric() {
    let a = turned_box(vec3(0.0, 0.0, 0.0), vec3(0.0, 0.0, 1.0), 0.3);
    let b = turned_box(vec3(0.9, 0.2, 0.1), vec3(1.0, 1.0, 0.0), 0.7);
    let ab = get_collision_info(&a, &at_rest(), &b, &at_rest()).expect("boxes overlap");
    let ba = get_collision_info(&b, &at_rest(), &a, &at_rest()).expect("boxes overlap");
    assert_eq!(ab.penetration_depth, ba.penetration_depth);
    assert_eq!(ab.normal, ba.normal.neg());
    assert!(val(ab.penetration_depth) > 0.0);
}

#[test]
fn detection_is_symmetric_when_apart() {
    let a = turned_box(vec3(0.0, 0.0, 0.0), vec3(0.0, 0.0, 1.0), 0.3);
    let b = turned_box(vec3(3.0, 0.2, 0.1), vec3(1.0, 1.0, 0.0), 0.7);
    assert!(get_collision_info(&a, &at_rest(), &b, &at_rest()).is_none());
    assert!(get_collision_info(&b, &at_rest(), &a, &at_rest()).is_none());
}

#[test]
fn ten_unit_gap_means_no_contact_whatever_the_rotation() {
    // Unit cubes whose faces are ten units apart along x when upright.
    let axes = [
        vec3(1.0, 0.0, 0.0),
        vec3(0.0, 1.0, 0.0),
        vec3(0.0, 0.0, 1.0),
        vec3(1.0, 1.0, 0.0),
        vec3(1.0, 1.0, 1.0),
        vec3(-1.0, 2.0, 0.5),
    ];
    let angles = [0.0, 0.4, 0.785398163, 1.2, 1.570796327, 2.5, 3.141592654, 4.0, -1.0];
    for axis_a in axes {
        for angle_a in angles {
            for axis_b in axes {
                for angle_b in angles {
                    let a = turned_box(vec3(0.0, 0.0, 0.0), axis_a, angle_a);
                    let b = turned_box(vec3(11.0, 0.0, 0.0), axis_b, angle_b);
                    assert!(
                        get_collision_info(&a, &at_rest(), &b, &at_rest()).is_none(),
                        "contact at {axis_a:?} {angle_a} / {axis_b:?} {angle_b}"
                    );
                }
            }
        }
    }
}

#[test]
fn touching_faces_are_no_contact() {
    let a = unit_box(0.0, 0.0, 0.0);
    let b = unit_box(1.0, 0.0, 0.0);
    assert!(get_collision_info(&a, &at_rest(), &b, &at_rest()).is_none());
}

#[test]
fn edge_on_edge_contact_uses_a_cross_product_axis() {
    // Two cubes turned by an eighth of a turn about different axes, so
    // that an edge of one meets an edge of the other.
    let eighth = std::f64::consts::FRAC_PI_4;
    let a = turned_box(vec3(0.0, 0.0, 0.0), vec3(0.0, 0.0, 1.0), eighth);
    let b = turned_box(vec3(0.0, 1.3, 0.0), vec3(1.0, 0.0, 0.0), eighth);
    let c = get_collision_info(&a, &at_rest(), &b, &at_rest()).expect("edges cross");
    // Each edge reaches sqrt(1/2) from its center; the centers are 1.3 apart.
    let depth = 2.0 * std::f64::consts::FRAC_1_SQRT_2 - 1.3;
    assert!((val(c.penetration_depth) - depth).abs() < 1e-6, "{:?}", c);
    assert!((val(c.normal.y) + 1.0).abs() < 1e-6, "{:?}", c.normal);
}

#[test]
fn equal_overlaps_go_to_the_first_axis_tested() {
    // Overlap 0.2 along both x and y; x is tested first.
    let a = unit_box(0.0, 0.0, 0.0);
    let b = unit_box(0.8, 0.8, 0.0);
    let c = get_collision_info(&a, &at_rest(), &b, &at_rest()).expect("boxes overlap");
    assert_eq!(c.penetration_depth.raw(), 200_000_000);
    assert_eq!(c.normal, vec3(-1.0, 0.0, 0.0));
}

#[test]
fn contact_normals_are_of_unit_length() {
    let a = turned_box(vec3(0.0, 0.0, 0.0), vec3(1.0, 2.0, 3.0), 0.8);
    let b = turned_box(vec3(0.7, 0.3, -0.2), vec3(-1.0, 0.5, 0.0), 2.1);
    let c = get_collision_info(&a, &at_rest(), &b, &at_rest()).expect("boxes overlap");
    assert!((val(c.normal.length()) - 1.0).abs() < 1e-8, "{:?}", c.normal);
}

#[test]
fn upright_boxes_with_a_gap_along_x() {
    let a = Collider::from_cuboid(vec3(0.5, 2.0, 3.0), vec3(-1.0, 0.0, 0.0), Quat::identity());
    let b = Collider::from_cuboid(vec3(1.5, 0.1, 7.0), vec3(11.0, 0.3, -0.4), Quat::identity());
    assert!(get_collision_info(&a, &at_rest(), &b, &at_rest()).is_none());
    assert!(get_collision_info(&b, &at_rest(), &a, &at_rest()).is_none());
}
