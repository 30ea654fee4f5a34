//! Contact detection between boxes by the separating axis theorem, and
//! the resolution of a contact into corrected positions and velocities.

use crate::bodies::{
    bodies_view, inverse_inertia_world, BodyModel, RigidbodyComponent, RigidbodyType, Velocity,
    VelocityModel,
};
use crate::collisions::{
    candidate_axes, collider_refreshed, vec3s_view, Collider, ColliderModel, ContactInfo,
    ContactModel,
};
use crate::fixed::{fx_add, fx_div, fx_max, fx_min, fx_mul, fx_sub, Fixed, LIMIT, SCALE};
use crate::collisions::contact_laws::lemma_whole_correction;
use crate::matrix::m3_mul_vec;
use crate::vector::{
    v3_add, v3_cross, v3_dot, v3_neg, v3_normalize, v3_scale, v3_sub, Vec3, V3,
};
use vstd::prelude::*;

verus! {

/// Least projection of the points onto `axis`; `LIMIT` for no points.
pub open spec fn proj_min(points: Seq<V3>, axis: V3) -> int
    decreases points.len(),
{
    if points.len() == 0 {
        LIMIT as int
    } else {
        fx_min(proj_min(points.drop_last(), axis), v3_dot(axis, points.last()))
    }
}

/// Greatest projection of the points onto `axis`; `-LIMIT` for no points.
pub open spec fn proj_max(points: Seq<V3>, axis: V3) -> int
    decreases points.len(),
{
    if points.len() == 0 {
        -(LIMIT as int)
    } else {
        fx_max(proj_max(points.drop_last(), axis), v3_dot(axis, points.last()))
    }
}

/// Length of the stretch that two intervals share; zero or less where
/// they share none.
pub open spec fn interval_overlap(min_a: int, max_a: int, min_b: int, max_b: int) -> int {
    fx_sub(fx_min(max_a, max_b), fx_max(min_a, min_b))
}

/// Overlap of the projections of two point sets onto `axis`.
pub open spec fn axis_overlap(a: Seq<V3>, b: Seq<V3>, axis: V3) -> int {
    interval_overlap(proj_min(a, axis), proj_max(a, axis), proj_min(b, axis), proj_max(b, axis))
}

/// The interval that a collider's corners cover along `axis`, as
/// `(least, greatest)`.
pub fn project_collider(collider: &Collider, axis: Vec3) -> (r: (Fixed, Fixed))
    ensures
        r.0@ == proj_min(collider@.vertices, axis@),
        r.1@ == proj_max(collider@.vertices, axis@),
{
    let mut min = Fixed::from_raw(LIMIT);
    let mut max = Fixed::from_raw(-LIMIT);
    let ghost points = collider@.vertices;
    let mut k: usize = 0;
    while k < 8
        invariant
            0 <= k <= 8,
            points == collider@.vertices,
            points.len() == 8,
            min@ == proj_min(points.take(k as int), axis@),
            max@ == proj_max(points.take(k as int), axis@),
        decreases 8 - k,
    {
        let projection = axis.dot(collider.vertex_info.vertices[k]);
        min = min.min(projection);
        max = max.max(projection);
        proof {
            let next = points.take(k as int + 1);
            assert(next.drop_last() =~= points.take(k as int));
            assert(next.last() == points[k as int]);
        }
        k = k + 1;
    }
    assert(points.take(8) =~= points);
    (min, max)
}

/// Length of the stretch that `[min_a, max_a]` and `[min_b, max_b]`
/// share; zero or less where they share none.
pub fn get_overlap(min_a: Fixed, max_a: Fixed, min_b: Fixed, max_b: Fixed) -> (r: Fixed)
    ensures
        r@ == interval_overlap(min_a@, max_a@, min_b@, max_b@),
{
    max_a.min(max_b).sub(min_a.max(min_b))
}

/// The overlap of the two corner sets along each axis in turn, each
/// axis scaled to unit length first.
pub open spec fn overlaps(axes: Seq<V3>, a: Seq<V3>, b: Seq<V3>) -> Seq<int> {
    Seq::new(axes.len(), |i: int| axis_overlap(a, b, v3_normalize(axes[i])))
}

/// Whether some axis shows no overlap.
pub open spec fn separated(overlaps: Seq<int>) -> bool {
    exists|i: int| 0 <= i < overlaps.len() && overlaps[i] <= 0
}

/// Index of the first least value among the first `k` of `s`.
pub open spec fn first_min_index(s: Seq<int>, k: int) -> int
    decreases k,
{
    if k <= 1 {
        0
    } else {
        let before = first_min_index(s, k - 1);
        if s[k - 1] < s[before] {
            k - 1
        } else {
            before
        }
    }
}

/// `axis` or its opposite, whichever does not point from `to` toward
/// `from`.
pub open spec fn oriented_normal(axis: V3, from: V3, to: V3) -> V3 {
    if v3_dot(v3_sub(to, from), axis) < 0 {
        v3_neg(axis)
    } else {
        axis
    }
}

/// The contact between two boxes: none where some candidate axis shows
/// no overlap; else the first axis of least overlap, pointing from `b`
/// toward `a`, with that overlap as depth.
pub open spec fn contact_between(
    a: ColliderModel,
    a_vel: VelocityModel,
    b: ColliderModel,
    b_vel: VelocityModel,
) -> Option<ContactModel> {
    let axes = candidate_axes(a.axes, b.axes);
    let found = overlaps(axes, a.vertices, b.vertices);
    if separated(found) {
        None
    } else {
        let i = first_min_index(found, found.len() as int);
        Some(
            ContactModel {
                normal: oriented_normal(v3_normalize(axes[i]), b.center, a.center),
                penetration_depth: found[i],
                contact_point_a: a.center,
                a_vel,
                contact_point_b: b.center,
                b_vel,
            },
        )
    }
}

/// The value of a contact that may be absent.
pub open spec fn contact_view(c: Option<ContactInfo>) -> Option<ContactModel> {
    match c {
        Some(c) => Some(c@),
        None => None,
    }
}

/// Tests two boxes for contact along every candidate axis.
pub fn get_collision_info(a: &Collider, a_vel: &Velocity, b: &Collider, b_vel: &Velocity) -> (r:
    Option<ContactInfo>)
    ensures
        contact_view(r) == contact_between(a@, a_vel@, b@, b_vel@),
{
    let axes = a.get_axes(b);
    let ghost found = overlaps(vec3s_view(axes@), a@.vertices, b@.vertices);
    let n = axes.len();
    assert(n >= 6);
    let mut min_overlap = Fixed::from_raw(LIMIT);
    let mut collision_axis = Vec3::zero();
    let mut k: usize = 0;
    while k < n
        invariant
            0 <= k <= n,
            n == axes@.len(),
            vec3s_view(axes@) == candidate_axes(a@.axes, b@.axes),
            found == overlaps(vec3s_view(axes@), a@.vertices, b@.vertices),
            forall|j: int| 0 <= j < k ==> found[j] > 0,
            k > 0 ==> min_overlap@ == found[first_min_index(found, k as int)],
            k > 0 ==> collision_axis@ == v3_normalize(
                vec3s_view(axes@)[first_min_index(found, k as int)],
            ),
            k > 0 ==> 0 <= first_min_index(found, k as int) < k,
        decreases n - k,
    {
        let axis = axes[k].normalize();
        let (min_a, max_a) = project_collider(a, axis);
        let (min_b, max_b) = project_collider(b, axis);
        let overlap = get_overlap(min_a, max_a, min_b, max_b);
        assert(overlap@ == found[k as int]);
        if overlap.le(Fixed::zero()) {
            assert(separated(found));
            return None;
        }
        if k == 0 || overlap.lt(min_overlap) {
            min_overlap = overlap;
            collision_axis = axis;
        }
        k = k + 1;
    }
    assert(!separated(found));
    let toward_a = a.center.sub(b.center);
    let normal = if toward_a.dot(collision_axis).lt(Fixed::zero()) {
        collision_axis.neg()
    } else {
        collision_axis
    };
    Some(
        ContactInfo {
            normal,
            penetration_depth: min_overlap,
            contact_point_a: a.center,
            contact_point_b: b.center,
            a_vel: *a_vel,
            b_vel: *b_vel,
        },
    )
}

/// The inverse mass that a body brings to a contact: zero for a static
/// body, whatever it stores.
pub open spec fn effective_inverse_mass(b: BodyModel) -> int {
    if b.rbt == RigidbodyType::Static {
        0
    } else {
        b.inverse_mass
    }
}

/// Speed at which the first body of a contact moves along the normal
/// relative to the second, by the velocities the contact holds.
/// Negative where the bodies approach each other.
pub open spec fn normal_speed(c: ContactModel) -> int {
    v3_dot(v3_sub(c.a_vel.linear, c.b_vel.linear), c.normal)
}

/// The impulse on the first body of a contact, `total` being the sum of
/// the two inverse masses: none where the bodies are not approaching,
/// else `normal (-(1 + e) v / total)` with `v` the normal speed and `e`
/// the lesser of the two restitutions.
pub open spec fn contact_impulse(a: BodyModel, b: BodyModel, c: ContactModel, total: int) -> Option<
    V3,
> {
    let v = normal_speed(c);
    if v >= 0 {
        None
    } else {
        let bounce = fx_add(SCALE as int, fx_min(a.restitution, b.restitution));
        Some(v3_scale(c.normal, fx_div(fx_mul(-bounce, v), total)))
    }
}

/// The impulse on the second body of a contact: the opposite of that
/// on the first.
pub open spec fn opposite_impulse(p: Option<V3>) -> Option<V3> {
    match p {
        Some(p) => Some(v3_neg(p)),
        None => None,
    }
}

/// How far a body with inverse mass `inv` is moved out of a contact of
/// the given normal and depth: `normal (depth (inv / total))`.
pub open spec fn correction(normal: V3, depth: int, inv: int, total: int) -> V3 {
    v3_scale(normal, fx_mul(depth, fx_div(inv, total)))
}

/// The body `b` after a contact has moved it by `shift` and, where
/// there is an impulse `p`, changed its velocity: linear by
/// `p inverse_mass`, angular by `I^-1 (arm x p)` with the inverse
/// inertia tensor in world space. A body without inverse mass stays as
/// it is.
pub open spec fn corrected(b: BodyModel, shift: V3, impulse: Option<V3>, arm: V3) -> BodyModel {
    let inv = effective_inverse_mass(b);
    if inv == 0 {
        b
    } else {
        BodyModel {
            collider: collider_refreshed(
                ColliderModel { center: v3_add(b.collider.center, shift), ..b.collider },
            ),
            velocity: match impulse {
                None => b.velocity,
                Some(p) => VelocityModel {
                    linear: v3_add(b.velocity.linear, v3_scale(p, inv)),
                    angular: v3_add(
                        b.velocity.angular,
                        m3_mul_vec(
                            inverse_inertia_world(b.inverse_inertia_tensor, b.collider.rotation),
                            v3_cross(arm, p),
                        ),
                    ),
                },
            },
            ..b
        }
    }
}

/// The two bodies of a contact after its resolution. Where neither has
/// inverse mass, both stay as they are. Else each is moved along the
/// normal by its share of the depth, the first with the normal and the
/// second against it, and the impulse is applied to the first and its
/// opposite to the second, each about the arm from the body's center,
/// as it was before the move, to its contact point.
pub open spec fn resolved(a: BodyModel, b: BodyModel, c: ContactModel) -> (BodyModel, BodyModel) {
    let inv_a = effective_inverse_mass(a);
    let inv_b = effective_inverse_mass(b);
    let total = fx_add(inv_a, inv_b);
    if total == 0 {
        (a, b)
    } else {
        let p = contact_impulse(a, b, c, total);
        (
            corrected(
                a,
                correction(c.normal, c.penetration_depth, inv_a, total),
                p,
                v3_sub(c.contact_point_a, a.collider.center),
            ),
            corrected(
                b,
                v3_neg(correction(c.normal, c.penetration_depth, inv_b, total)),
                opposite_impulse(p),
                v3_sub(c.contact_point_b, b.collider.center),
            ),
        )
    }
}

/// The value of an impulse that may be absent.
pub open spec fn impulse_view(p: Option<Vec3>) -> Option<V3> {
    match p {
        Some(p) => Some(p@),
        None => None,
    }
}

fn inverse_mass_in_contact(body: &RigidbodyComponent) -> (r: Fixed)
    ensures
        r@ == effective_inverse_mass(body@),
{
    match body.rbt {
        RigidbodyType::Static => Fixed::zero(),
        _ => body.inverse_mass,
    }
}

fn apply_correction(body: &mut RigidbodyComponent, shift: Vec3, impulse: Option<Vec3>, arm: Vec3)
    ensures
        final(body)@ == corrected(old(body)@, shift@, impulse_view(impulse), arm@),
        effective_inverse_mass(old(body)@) == 0 ==> *final(body) == *old(body),
{
    let inv = inverse_mass_in_contact(body);
    if inv.is_zero() {
        return ;
    }
    match impulse {
        Some(p) => {
            let spin = body.get_inverse_inertia_world(&body.collider.rotation).mul_vec3(
                arm.cross(p),
            );
            body.velocity = Velocity::new(
                body.velocity.linear.add(p.scale(inv)),
                body.velocity.angular.add(spin),
            );
        },
        None => {},
    }
    body.collider.center = body.collider.center.add(shift);
    body.collider.refresh();
}

/// Resolves one contact between `a` and `b`: parts them along the
/// normal and, where they approach each other, exchanges an impulse.
/// `contact.normal` is to point from `b` toward `a`.
pub fn resolve_collision(
    a: &mut RigidbodyComponent,
    b: &mut RigidbodyComponent,
    contact: &ContactInfo,
)
    ensures
        (final(a)@, final(b)@) == resolved(old(a)@, old(b)@, contact@),
        effective_inverse_mass(old(a)@) == 0 ==> *final(a) == *old(a),
        effective_inverse_mass(old(b)@) == 0 ==> *final(b) == *old(b),
        effective_inverse_mass(old(b)@) == 0 && effective_inverse_mass(old(a)@) != 0
            ==> final(a).collider.center@ == v3_add(
            old(a).collider.center@,
            v3_scale(contact.normal@, contact.penetration_depth@),
        ),
        effective_inverse_mass(old(a)@) == 0 && effective_inverse_mass(old(b)@) != 0
            ==> final(b).collider.center@ == v3_add(
            old(b).collider.center@,
            v3_neg(v3_scale(contact.normal@, contact.penetration_depth@)),
        ),
{
    proof {
        let inv_a = effective_inverse_mass(a@);
        let inv_b = effective_inverse_mass(b@);
        if inv_b == 0 && inv_a != 0 {
            lemma_whole_correction(contact.normal@, contact.penetration_depth@, inv_a);
        }
        if inv_a == 0 && inv_b != 0 {
            lemma_whole_correction(contact.normal@, contact.penetration_depth@, inv_b);
        }
    }
    let inv_a = inverse_mass_in_contact(a);
    let inv_b = inverse_mass_in_contact(b);
    let total_inverse_mass = inv_a.add(inv_b);
    if total_inverse_mass.is_zero() {
        return ;
    }
    let relative = contact.a_vel.linear.sub(contact.b_vel.linear).dot(contact.normal);
    let impulse = if relative.lt(Fixed::zero()) {
        let bounce = Fixed::one().add(a.restitution.min(b.restitution));
        Some(contact.normal.scale(bounce.neg().mul(relative).div(total_inverse_mass)))
    } else {
        None
    };
    let opposite = match impulse {
        Some(p) => Some(p.neg()),
        None => None,
    };
    let shift_a = contact.normal.scale(
        contact.penetration_depth.mul(inv_a.div(total_inverse_mass)),
    );
    let shift_b = contact.normal.scale(
        contact.penetration_depth.mul(inv_b.div(total_inverse_mass)),
    ).neg();
    let arm_a = contact.contact_point_a.sub(a.collider.center);
    let arm_b = contact.contact_point_b.sub(b.collider.center);
    apply_correction(a, shift_a, impulse, arm_a);
    apply_correction(b, shift_b, opposite, arm_b);
}

/// The body `b` with its collider's axes and corners derived anew.
pub open spec fn refreshed(b: BodyModel) -> BodyModel {
    BodyModel { collider: collider_refreshed(b.collider), ..b }
}

/// Whether two bodies differ at most in the axes and corners that
/// their colliders cache.
pub open spec fn same_but_caches(x: RigidbodyComponent, y: RigidbodyComponent) -> bool {
    &&& x.state == y.state
    &&& x.rbt == y.rbt
    &&& x.velocity == y.velocity
    &&& x.inverse_mass == y.inverse_mass
    &&& x.friction == y.friction
    &&& x.torque == y.torque
    &&& x.damping == y.damping
    &&& x.inverse_inertia_tensor == y.inverse_inertia_tensor
    &&& x.restitution == y.restitution
    &&& x.collider.collider_shape == y.collider.collider_shape
    &&& x.collider.center == y.collider.center
    &&& x.collider.rotation == y.collider.rotation
    &&& x.collider.half_extents == y.collider.half_extents
}

/// Derives the axes and corners of every body's collider anew from
/// its pose.
pub fn update_vertices(bodies: &mut Vec<RigidbodyComponent>)
    ensures
        final(bodies)@.len() == old(bodies)@.len(),
        forall|i: int|
            0 <= i < old(bodies)@.len() ==> (#[trigger] final(bodies)@[i])@ == refreshed(
                old(bodies)@[i]@,
            ),
        forall|i: int|
            0 <= i < old(bodies)@.len() ==> same_but_caches(
                #[trigger] final(bodies)@[i],
                old(bodies)@[i],
            ),
{
    let n = bodies.len();
    let mut i: usize = 0;
    while i < n
        invariant
            0 <= i <= n,
            n == bodies@.len(),
            n == old(bodies)@.len(),
            forall|k: int| 0 <= k < i ==> (#[trigger] bodies@[k])@ == refreshed(old(bodies)@[k]@),
            forall|k: int| 0 <= k < i ==> same_but_caches(#[trigger] bodies@[k], old(bodies)@[k]),
            forall|k: int| i <= k < n ==> #[trigger] bodies@[k] == old(bodies)@[k],
        decreases n - i,
    {
        let mut body = bodies[i];
        body.collider.refresh();
        bodies[i] = body;
        i = i + 1;
    }
}

/// Whether bodies `i` and `j` are in contact.
pub open spec fn pair_in_contact(bodies: Seq<BodyModel>, i: int, j: int) -> bool {
    contact_between(
        bodies[i].collider,
        bodies[i].velocity,
        bodies[j].collider,
        bodies[j].velocity,
    ) is Some
}

/// The bodies after the contact between bodies `i` and `j`, if there
/// is one, has been resolved.
pub open spec fn pair_resolved(bodies: Seq<BodyModel>, i: int, j: int) -> Seq<BodyModel> {
    match contact_between(
        bodies[i].collider,
        bodies[i].velocity,
        bodies[j].collider,
        bodies[j].velocity,
    ) {
        Some(c) => {
            let after = resolved(bodies[i], bodies[j], c);
            bodies.update(i, after.0).update(j, after.1)
        },
        None => bodies,
    }
}

/// The bodies after every pair from `(i, j)` on has been tested and,
/// where in contact, resolved, together with the pairs that were
/// resolved. The pairs `(i, j)` with `i < j` are taken in rising order
/// of `i`, then of `j`, each against the bodies as the pairs before it
/// left them.
pub open spec fn scan_from(bodies: Seq<BodyModel>, i: int, j: int) -> (Seq<BodyModel>, Seq<(int, int)>)
    decreases bodies.len() - i, bodies.len() - j,
{
    if i < 0 || j <= i || i + 1 >= bodies.len() {
        (bodies, Seq::empty())
    } else if j >= bodies.len() {
        scan_from(bodies, i + 1, i + 2)
    } else {
        let rest = scan_from(pair_resolved(bodies, i, j), i, j + 1);
        if pair_in_contact(bodies, i, j) {
            (rest.0, seq![(i, j)] + rest.1)
        } else {
            rest
        }
    }
}

/// The bodies after all pairs have been tested and resolved, and the
/// pairs that were resolved, in order.
pub open spec fn all_pairs_resolved(bodies: Seq<BodyModel>) -> (Seq<BodyModel>, Seq<(int, int)>) {
    scan_from(bodies, 0, 1)
}

/// A list of index pairs as pairs of integers.
pub open spec fn pairs_view(s: Seq<(usize, usize)>) -> Seq<(int, int)> {
    Seq::new(s.len(), |k: int| (s[k].0 as int, s[k].1 as int))
}

/// Tests every pair of bodies for contact and resolves each contact it
/// finds, before the next pair is tested. Returns the pairs resolved.
pub fn detect_collisions(bodies: &mut Vec<RigidbodyComponent>) -> (hits: Vec<(usize, usize)>)
    ensures
        final(bodies)@.len() == old(bodies)@.len(),
        bodies_view(final(bodies)@) == all_pairs_resolved(bodies_view(old(bodies)@)).0,
        pairs_view(hits@) == all_pairs_resolved(bodies_view(old(bodies)@)).1,
        forall|k: int|
            0 <= k < old(bodies)@.len() && old(bodies)@[k].rbt == RigidbodyType::Static
                ==> #[trigger] final(bodies)@[k] == old(bodies)@[k],
{
    let n = bodies.len();
    let mut hits: Vec<(usize, usize)> = Vec::new();
    let ghost start = bodies_view(bodies@);
    assert(pairs_view(hits@) =~= Seq::empty());
    let mut i: usize = 0;
    while n - i > 1
        invariant
            0 <= i <= n,
            n == bodies@.len(),
            n == old(bodies)@.len(),
            start == bodies_view(old(bodies)@),
            all_pairs_resolved(start).0 == scan_from(bodies_view(bodies@), i as int, i + 1).0,
            all_pairs_resolved(start).1 == pairs_view(hits@) + scan_from(
                bodies_view(bodies@),
                i as int,
                i + 1,
            ).1,
            forall|k: int|
                0 <= k < n && old(bodies)@[k].rbt == RigidbodyType::Static ==> #[trigger] bodies@[k]
                    == old(bodies)@[k],
        decreases n - i,
    {
        let mut j: usize = i + 1;
        while j < n
            invariant
                0 <= i < j <= n,
                i + 1 < n,
                n == bodies@.len(),
                n == old(bodies)@.len(),
                start == bodies_view(old(bodies)@),
                all_pairs_resolved(start).0 == scan_from(
                    bodies_view(bodies@),
                    i as int,
                    j as int,
                ).0,
                all_pairs_resolved(start).1 == pairs_view(hits@) + scan_from(
                    bodies_view(bodies@),
                    i as int,
                    j as int,
                ).1,
                forall|k: int|
                    0 <= k < n && old(bodies)@[k].rbt == RigidbodyType::Static
                        ==> #[trigger] bodies@[k] == old(bodies)@[k],
            decreases n - j,
        {
            let ghost before = bodies_view(bodies@);
            let ghost log = pairs_view(hits@);
            let mut body_a = bodies[i];
            let mut body_b = bodies[j];
            match get_collision_info(
                &body_a.collider,
                &body_a.velocity,
                &body_b.collider,
                &body_b.velocity,
            ) {
                Some(collision_data) => {
                    resolve_collision(&mut body_a, &mut body_b, &collision_data);
                    bodies[i] = body_a;
                    bodies[j] = body_b;
                    hits.push((i, j));
                    assert(pairs_view(hits@) =~= log + seq![(i as int, j as int)]);
                },
                None => {},
            }
            assert(bodies_view(bodies@) =~= pair_resolved(before, i as int, j as int));
            assert(pairs_view(hits@) + scan_from(bodies_view(bodies@), i as int, j + 1).1 =~= log
                + scan_from(before, i as int, j as int).1);
            j = j + 1;
        }
        i = i + 1;
    }
    assert(pairs_view(hits@) + Seq::<(int, int)>::empty() =~= pairs_view(hits@));
    hits
}

} // verus!
