//! One tick of the simulation: move every body, refresh the colliders,
//! then find and resolve the contacts.

use crate::bodies::orientation::lemma_orientation_stays_unit;
use crate::bodies::{
    apply_forces, bodies_view, body_wf, integrated, BodyModel, RigidbodyComponent, RigidbodyType,
};
use crate::collisions::collider_synced;
use crate::collisions::collider_systems::{
    all_pairs_resolved, detect_collisions, pair_in_contact, pair_resolved, pairs_view, refreshed,
    same_but_caches, scan_from, update_vertices,
};
use crate::fixed::Fixed;
use crate::unit_length::is_unit_quat;
use crate::vector::{Vec3, V3};
use vstd::prelude::*;

verus! {

/// The bodies after each has moved for `dt` on its own, with colliders
/// refreshed.
pub open spec fn all_moved(bodies: Seq<BodyModel>, dt: int, gravity: V3) -> Seq<BodyModel> {
    Seq::new(bodies.len(), |i: int| refreshed(integrated(bodies[i], dt, gravity)))
}

/// Whether no two of the bodies are in contact.
pub open spec fn no_contact(bodies: Seq<BodyModel>) -> bool {
    forall|p: int, q: int| 0 <= p < q < bodies.len() ==> !pair_in_contact(bodies, p, q)
}

/// The bodies one tick of length `dt` later, and the pairs whose
/// contact was resolved in it.
pub open spec fn stepped(bodies: Seq<BodyModel>, dt: int, gravity: V3) -> (
    Seq<BodyModel>,
    Seq<(int, int)>,
) {
    all_pairs_resolved(all_moved(bodies, dt, gravity))
}

/// Advances the simulation by one tick of length `dt` under the given
/// gravity. Returns the pairs of bodies whose contact was resolved, in
/// the order in which they were.
pub fn step(bodies: &mut Vec<RigidbodyComponent>, dt: Fixed, gravity: Vec3) -> (hits: Vec<
    (usize, usize),
>)
    ensures
        final(bodies)@.len() == old(bodies)@.len(),
        bodies_view(final(bodies)@) == stepped(bodies_view(old(bodies)@), dt@, gravity@).0,
        pairs_view(hits@) == stepped(bodies_view(old(bodies)@), dt@, gravity@).1,
        forall|k: int|
            0 <= k < old(bodies)@.len() && old(bodies)@[k].rbt == RigidbodyType::Static
                ==> same_but_caches(#[trigger] final(bodies)@[k], old(bodies)@[k]),
        no_contact(all_moved(bodies_view(old(bodies)@), dt@, gravity@)) ==> hits@.len() == 0
            && bodies_view(final(bodies)@) == all_moved(bodies_view(old(bodies)@), dt@, gravity@),
{
    apply_forces(bodies, dt, gravity);
    update_vertices(bodies);
    assert(bodies_view(bodies@) =~= all_moved(bodies_view(old(bodies)@), dt@, gravity@));
    proof {
        let moved = bodies_view(bodies@);
        if no_contact(moved) {
            lemma_scan_without_contact(moved, 0, 1);
        }
    }
    let hits = detect_collisions(bodies);
    assert(pairs_view(hits@).len() == hits@.len());
    hits
}

/// Whether two bodies differ at most in where they are, how they
/// move, and the axes and corners that follow from where they are.
pub open spec fn same_but_motion(x: BodyModel, y: BodyModel) -> bool {
    &&& x.state == y.state
    &&& x.rbt == y.rbt
    &&& x.inverse_mass == y.inverse_mass
    &&& x.friction == y.friction
    &&& x.torque == y.torque
    &&& x.damping_linear == y.damping_linear
    &&& x.damping_angular == y.damping_angular
    &&& x.inverse_inertia_tensor == y.inverse_inertia_tensor
    &&& x.restitution == y.restitution
    &&& x.collider.shape == y.collider.shape
    &&& x.collider.half_extents == y.collider.half_extents
}

/// What the resolution of pair `(i, j)` leaves untouched: the number
/// of bodies, every body but the two, every static body, and of the two
/// all but their motion. A collider that was in step with its pose
/// still is.
pub proof fn lemma_pair_resolved_frame(bodies: Seq<BodyModel>, i: int, j: int)
    requires
        0 <= i < j < bodies.len(),
    ensures
        pair_resolved(bodies, i, j).len() == bodies.len(),
        forall|k: int|
            0 <= k < bodies.len() ==> {
                let after = #[trigger] pair_resolved(bodies, i, j)[k];
                &&& same_but_motion(after, bodies[k])
                &&& after.collider.rotation == bodies[k].collider.rotation
                &&& (k != i && k != j ==> after == bodies[k])
                &&& (bodies[k].rbt == RigidbodyType::Static ==> after == bodies[k])
                &&& (collider_synced(bodies[k].collider) ==> collider_synced(after.collider))
            },
{
}

/// What the resolution of all pairs from `(i, j)` on leaves untouched:
/// the number of bodies, every static body, and of every body all but
/// its motion. A collider that was in step with its pose still is.
pub proof fn lemma_scan_frame(bodies: Seq<BodyModel>, i: int, j: int)
    ensures
        scan_from(bodies, i, j).0.len() == bodies.len(),
        forall|k: int|
            0 <= k < bodies.len() ==> {
                let after = #[trigger] scan_from(bodies, i, j).0[k];
                &&& same_but_motion(after, bodies[k])
                &&& after.collider.rotation == bodies[k].collider.rotation
                &&& (bodies[k].rbt == RigidbodyType::Static ==> after == bodies[k])
                &&& (collider_synced(bodies[k].collider) ==> collider_synced(after.collider))
            },
    decreases bodies.len() - i, bodies.len() - j,
{
    if i < 0 || j <= i || i + 1 >= bodies.len() {
    } else if j >= bodies.len() {
        lemma_scan_frame(bodies, i + 1, i + 2);
    } else {
        let next = pair_resolved(bodies, i, j);
        lemma_pair_resolved_frame(bodies, i, j);
        lemma_scan_frame(next, i, j + 1);
        assert forall|k: int| 0 <= k < bodies.len() implies {
            let after = #[trigger] scan_from(bodies, i, j).0[k];
            &&& same_but_motion(after, bodies[k])
            &&& after.collider.rotation == bodies[k].collider.rotation
            &&& (bodies[k].rbt == RigidbodyType::Static ==> after == bodies[k])
            &&& (collider_synced(bodies[k].collider) ==> collider_synced(after.collider))
        } by {
            let mid = next[k];
            let after = scan_from(next, i, j + 1).0[k];
            assert(same_but_motion(mid, bodies[k]));
            assert(same_but_motion(after, mid));
        }
    }
}

/// A static body comes out of a tick as it went in, whatever it
/// touches: same place, same orientation, same velocity. Only the axes
/// and corners of its collider are derived anew.
pub proof fn lemma_static_body_stays(bodies: Seq<BodyModel>, dt: int, gravity: V3, k: int)
    requires
        0 <= k < bodies.len(),
        bodies[k].rbt == RigidbodyType::Static,
    ensures
        stepped(bodies, dt, gravity).0.len() == bodies.len(),
        stepped(bodies, dt, gravity).0[k] == refreshed(bodies[k]),
{
    let moved = all_moved(bodies, dt, gravity);
    lemma_scan_frame(moved, 0, 1);
}

/// The bodies after one tick for each of the given lengths in turn.
pub open spec fn stepped_through(bodies: Seq<BodyModel>, dts: Seq<int>, gravity: V3) -> Seq<
    BodyModel,
>
    decreases dts.len(),
{
    if dts.len() == 0 {
        bodies
    } else {
        stepped(stepped_through(bodies, dts.drop_last(), gravity), dts.last(), gravity).0
    }
}

/// A static body never moves: after any number of ticks of any
/// lengths, among any other bodies, it has the place and the
/// orientation in which it started, and is still static.
pub proof fn lemma_static_body_never_moves(
    bodies: Seq<BodyModel>,
    dts: Seq<int>,
    gravity: V3,
    k: int,
)
    requires
        0 <= k < bodies.len(),
        bodies[k].rbt == RigidbodyType::Static,
    ensures
        stepped_through(bodies, dts, gravity).len() == bodies.len(),
        stepped_through(bodies, dts, gravity)[k].rbt == RigidbodyType::Static,
        stepped_through(bodies, dts, gravity)[k].collider.center == bodies[k].collider.center,
        stepped_through(bodies, dts, gravity)[k].collider.rotation == bodies[k].collider.rotation,
        stepped_through(bodies, dts, gravity)[k].velocity == bodies[k].velocity,
        dts.len() > 0 ==> stepped_through(bodies, dts, gravity)[k] == refreshed(bodies[k]),
    decreases dts.len(),
{
    if dts.len() > 0 {
        let before = stepped_through(bodies, dts.drop_last(), gravity);
        lemma_static_body_never_moves(bodies, dts.drop_last(), gravity, k);
        lemma_static_body_stays(before, dts.last(), gravity, k);
    }
}

/// Where no two bodies are in contact, no contact is resolved and
/// every body is left as it is.
pub proof fn lemma_scan_without_contact(bodies: Seq<BodyModel>, i: int, j: int)
    requires
        no_contact(bodies),
    ensures
        scan_from(bodies, i, j) == (bodies, Seq::<(int, int)>::empty()),
    decreases bodies.len() - i, bodies.len() - j,
{
    if i < 0 || j <= i || i + 1 >= bodies.len() {
    } else if j >= bodies.len() {
        lemma_scan_without_contact(bodies, i + 1, i + 2);
    } else {
        assert(!pair_in_contact(bodies, i, j));
        assert(pair_resolved(bodies, i, j) == bodies);
        lemma_scan_without_contact(bodies, i, j + 1);
    }
}

/// A tick in which no two bodies are in contact once they have moved
/// resolves nothing: it reports no pair, and leaves every body as its
/// own motion left it.
pub proof fn lemma_step_without_contact(bodies: Seq<BodyModel>, dt: int, gravity: V3)
    requires
        no_contact(all_moved(bodies, dt, gravity)),
    ensures
        stepped(bodies, dt, gravity) == (
            all_moved(bodies, dt, gravity),
            Seq::<(int, int)>::empty(),
        ),
{
    lemma_scan_without_contact(all_moved(bodies, dt, gravity), 0, 1);
}

/// A tick keeps every well-formed body well-formed.
pub proof fn lemma_step_keeps_bodies_well_formed(
    bodies: Seq<BodyModel>,
    dt: int,
    gravity: V3,
    k: int,
)
    requires
        0 <= k < bodies.len(),
        body_wf(bodies[k]),
    ensures
        stepped(bodies, dt, gravity).0.len() == bodies.len(),
        body_wf(stepped(bodies, dt, gravity).0[k]),
{
    let moved = all_moved(bodies, dt, gravity);
    lemma_scan_frame(moved, 0, 1);
    assert(same_but_motion(moved[k], bodies[k]));
    assert(same_but_motion(stepped(bodies, dt, gravity).0[k], moved[k]));
}

/// After a tick the axes and corners of every collider are those of
/// its pose.
pub proof fn lemma_step_leaves_colliders_in_step(
    bodies: Seq<BodyModel>,
    dt: int,
    gravity: V3,
    k: int,
)
    requires
        0 <= k < bodies.len(),
    ensures
        stepped(bodies, dt, gravity).0.len() == bodies.len(),
        collider_synced(stepped(bodies, dt, gravity).0[k].collider),
{
    let moved = all_moved(bodies, dt, gravity);
    lemma_scan_frame(moved, 0, 1);
    assert(collider_synced(moved[k].collider));
}

/// A tick keeps every orientation of unit length at unit length.
pub proof fn lemma_step_keeps_orientations_unit(
    bodies: Seq<BodyModel>,
    dt: int,
    gravity: V3,
    k: int,
)
    requires
        0 <= k < bodies.len(),
        is_unit_quat(bodies[k].collider.rotation),
    ensures
        stepped(bodies, dt, gravity).0.len() == bodies.len(),
        is_unit_quat(stepped(bodies, dt, gravity).0[k].collider.rotation),
{
    let moved = all_moved(bodies, dt, gravity);
    lemma_orientation_stays_unit(bodies[k], dt, gravity);
    lemma_scan_frame(moved, 0, 1);
}

/// Whether pair `x` comes before pair `y` in the order in which pairs
/// are tested.
pub open spec fn pair_before(x: (int, int), y: (int, int)) -> bool {
    x.0 < y.0 || (x.0 == y.0 && x.1 < y.1)
}

/// The pairs that a scan from `(i, j)` on reports are pairs of two
/// different bodies, the lower index first; none comes before
/// `(i, j)`; and they are reported in the order in which pairs are
/// tested, so none is reported twice.
pub proof fn lemma_scan_reports_in_order(bodies: Seq<BodyModel>, i: int, j: int)
    ensures
        forall|k: int|
            0 <= k < scan_from(bodies, i, j).1.len() ==> {
                let pair = #[trigger] scan_from(bodies, i, j).1[k];
                &&& 0 <= pair.0 < pair.1 < bodies.len()
                &&& !pair_before(pair, (i, j))
            },
        forall|k: int, m: int|
            0 <= k < m < scan_from(bodies, i, j).1.len() ==> pair_before(
                #[trigger] scan_from(bodies, i, j).1[k],
                #[trigger] scan_from(bodies, i, j).1[m],
            ),
    decreases bodies.len() - i, bodies.len() - j,
{
    if i < 0 || j <= i || i + 1 >= bodies.len() {
    } else if j >= bodies.len() {
        lemma_scan_reports_in_order(bodies, i + 1, i + 2);
        assert(scan_from(bodies, i, j).1 == scan_from(bodies, i + 1, i + 2).1);
    } else {
        let next = pair_resolved(bodies, i, j);
        lemma_pair_resolved_frame(bodies, i, j);
        lemma_scan_reports_in_order(next, i, j + 1);
        let rest = scan_from(next, i, j + 1).1;
        let all = scan_from(bodies, i, j).1;
        if !pair_in_contact(bodies, i, j) {
            assert(all == rest);
        } else {
            assert(all =~= seq![(i, j)] + rest);
            assert forall|k: int| 0 <= k < all.len() implies {
                let pair = #[trigger] all[k];
                &&& 0 <= pair.0 < pair.1 < bodies.len()
                &&& !pair_before(pair, (i, j))
            } by {
                if k > 0 {
                    assert(all[k] == rest[k - 1]);
                }
            }
            assert forall|k: int, m: int| 0 <= k < m < all.len() implies pair_before(
                #[trigger] all[k],
                #[trigger] all[m],
            ) by {
                assert(all[m] == rest[m - 1]);
                if k > 0 {
                    assert(all[k] == rest[k - 1]);
                }
            }
        }
    }
}

/// The pairs that a tick reports are pairs of two different bodies,
/// the lower index first, each reported once and in the order in which
/// pairs are tested.
pub proof fn lemma_step_reports_in_order(bodies: Seq<BodyModel>, dt: int, gravity: V3)
    ensures
        forall|k: int|
            0 <= k < stepped(bodies, dt, gravity).1.len() ==> {
                let pair = #[trigger] stepped(bodies, dt, gravity).1[k];
                0 <= pair.0 < pair.1 < bodies.len()
            },
        forall|k: int, m: int|
            0 <= k < m < stepped(bodies, dt, gravity).1.len() ==> pair_before(
                #[trigger] stepped(bodies, dt, gravity).1[k],
                #[trigger] stepped(bodies, dt, gravity).1[m],
            ),
{
    lemma_scan_reports_in_order(all_moved(bodies, dt, gravity), 0, 1);
}

} // verus!
