//! Laws that relate several operations: toggling twice, moving mass between bodies, the order
//! of attachments, and bodies without colliders.
use crate::mass::{add_models, contribution, zero_model, MassModel};
use crate::physics::{aggregate, attached, attached_to, body_mass, with_body, BodyHandle, ColliderRecord};
use crate::scene::{
    ancestor, graph_wf, is_ancestor, lemma_ancestor_compose, lemma_chain_unchanged, Entity,
};
use crate::world::{model_wf, owner_entity, toggle_spec, WorldModel};
use vstd::prelude::*;

verus! {

/// If the chain from `x` reaches `c`, some step reaches it for the first time.
proof fn lemma_first_hit(ps: Seq<Option<Entity>>, x: int, c: int, k: nat) -> (j: nat)
    requires
        ancestor(ps, x, k) == Some(c),
    ensures
        j <= k,
        ancestor(ps, x, j) == Some(c),
        forall|i: nat| i < j ==> #[trigger] ancestor(ps, x, i) != Some(c),
    decreases k,
{
    if exists|i: nat| i < k && #[trigger] ancestor(ps, x, i) == Some(c) {
        let i = choose|i: nat| i < k && #[trigger] ancestor(ps, x, i) == Some(c);
        lemma_first_hit(ps, x, c, i)
    } else {
        k
    }
}

/// Moving `e` away from its parent `a` cannot make `e` an ancestor of `a`.
proof fn lemma_no_way_back(ps: Seq<Option<Entity>>, e: int, a: Entity, b: Entity)
    requires
        graph_wf(ps),
        0 <= e < ps.len(),
        ps[e] == Some(a),
    ensures
        !is_ancestor(ps.update(e, Some(b)), e, a.0 as int),
{
    let qs = ps.update(e, Some(b));
    if is_ancestor(qs, e, a.0 as int) {
        let k = choose|k: nat| ancestor(qs, a.0 as int, k) == Some(e);
        let j = lemma_first_hit(qs, a.0 as int, e, k);
        lemma_chain_unchanged(ps, e, b, a.0 as int, j);
        lemma_ancestor_compose(ps, e, 1, j);
        assert(ancestor(ps, e, 1) == Some(a.0 as int)) by {
            assert(ancestor(ps, e, 0) == Some(e));
        }
        assert(ancestor(ps, e, 1 + j) == Some(e));
    }
}

/// An entity whose scene parent is the candidate that owns its collider's body.
pub open spec fn toggle_consistent(m: WorldModel, e: Entity) -> bool {
    &&& e.0 < m.parents.len()
    &&& m.toggles[e.0 as int] is Some
    &&& m.collider_of[e.0 as int] is Some
    &&& owner_entity(m, (m.collider_of[e.0 as int]->0).0 as int) matches Some(a) && (a
        == (m.toggles[e.0 as int]->0).parent1 || a == (m.toggles[e.0 as int]->0).parent2)
        && m.parents[e.0 as int] == Some(a)
}

/// Toggling an entity twice returns its scene parent and its collider's attachment, and so
/// the whole world, to what they were: toggling is an involution over the two candidates.
pub proof fn lemma_toggle_twice(m: WorldModel, e: Entity)
    requires
        model_wf(m),
        toggle_consistent(m, e),
    ensures
        toggle_spec(toggle_spec(m, e).0, e).0 == m,
{
    let m1 = toggle_spec(m, e).0;
    if toggle_spec(m, e).1 is Ok {
        let i = e.0 as int;
        let c = (m.collider_of[i]->0).0 as int;
        let rec = m.colliders[c];
        let big_a = rec.body->0;
        let a = owner_entity(m, c)->0;
        let b = toggle_target_of(m, e);
        assert(m.bodies[big_a.0 as int] == a);
        assert(m.body_of[a.0 as int] == Some(big_a));
        let big_b = m.body_of[b.0 as int]->0;
        assert(m1.bodies[big_b.0 as int] == b);
        assert(owner_entity(m1, c) == Some(b));
        lemma_no_way_back(m.parents, i, a, b);
        let m2 = toggle_spec(m1, e).0;
        assert(m2.parents =~= m.parents);
        assert(with_body(with_body(rec, Some(big_b)), Some(big_a)) == rec);
        assert(m2.colliders =~= m.colliders);
    }
}

/// The candidate `toggle` moves `e` to.
pub open spec fn toggle_target_of(m: WorldModel, e: Entity) -> Entity {
    crate::world::toggle_target(
        m.toggles[e.0 as int]->0,
        owner_entity(m, (m.collider_of[e.0 as int]->0).0 as int),
    )
}

/// What collider record `r` adds to body `b`'s aggregate.
pub open spec fn share(r: ColliderRecord, b: int) -> MassModel {
    if attached_to(r, b) {
        contribution(r.shape)
    } else {
        zero_model()
    }
}

/// Replacing record `c` changes an aggregate by the old record's share out and the new one's in.
proof fn lemma_aggregate_update(
    cols: Seq<ColliderRecord>,
    c: int,
    r: ColliderRecord,
    b: int,
    n: nat,
)
    requires
        0 <= c < n <= cols.len(),
    ensures
        add_models(aggregate(cols.update(c, r), b, n), share(cols[c], b)) == add_models(
            aggregate(cols, b, n),
            share(r, b),
        ),
    decreases n,
{
    let qs = cols.update(c, r);
    if c < n - 1 {
        lemma_aggregate_update(cols, c, r, b, (n - 1) as nat);
    } else {
        assert(aggregate(qs, b, (n - 1) as nat) == aggregate(cols, b, (n - 1) as nat)) by {
            lemma_aggregate_prefix(cols, qs, b, (n - 1) as nat);
        }
    }
}

proof fn lemma_aggregate_prefix(cols: Seq<ColliderRecord>, qs: Seq<ColliderRecord>, b: int, n: nat)
    requires
        n <= cols.len(),
        n <= qs.len(),
        forall|i: int| 0 <= i < n ==> cols[i] == qs[i],
    ensures
        aggregate(cols, b, n) == aggregate(qs, b, n),
    decreases n,
{
    if n > 0 {
        lemma_aggregate_prefix(cols, qs, b, (n - 1) as nat);
    }
}

/// After attaching collider `c` to body `b`, `c` is attached to `b`; the body it left no
/// longer counts its contribution, `b` now does, and every other body is unchanged. Attaching
/// a collider to the body it is already attached to changes nothing.
pub proof fn lemma_attach_moves_mass(cols: Seq<ColliderRecord>, c: int, b: BodyHandle)
    requires
        0 <= c < cols.len(),
    ensures
        attached(cols, c, b)[c].body == Some(b),
        cols[c].body == Some(b) ==> attached(cols, c, b) == cols,
        (cols[c].body is Some && cols[c].body->0 != b) ==> add_models(
            body_mass(attached(cols, c, b), (cols[c].body->0).0 as int),
            contribution(cols[c].shape),
        ) == body_mass(cols, (cols[c].body->0).0 as int),
        !attached_to(cols[c], b.0 as int) ==> body_mass(attached(cols, c, b), b.0 as int)
            == add_models(body_mass(cols, b.0 as int), contribution(cols[c].shape)),
        forall|d: int|
            d != b.0 && !attached_to(cols[c], d) ==> #[trigger] body_mass(attached(cols, c, b), d)
                == body_mass(cols, d),
{
    let after = attached(cols, c, b);
    let r = with_body(cols[c], Some(b));
    if cols[c].body == Some(b) {
        assert(after =~= cols);
    }
    assert forall|d: int| #![auto] true implies add_models(body_mass(after, d), share(cols[c], d))
        == add_models(body_mass(cols, d), share(r, d)) by {
        lemma_aggregate_update(cols, c, r, d, cols.len());
    }
    if cols[c].body is Some {
        let a = cols[c].body->0;
        if a != b {
            assert(add_models(body_mass(after, a.0 as int), share(cols[c], a.0 as int))
                == add_models(body_mass(cols, a.0 as int), share(r, a.0 as int)));
        }
    }
    assert(add_models(body_mass(after, b.0 as int), share(cols[c], b.0 as int)) == add_models(
        body_mass(cols, b.0 as int),
        share(r, b.0 as int),
    ));
    assert forall|d: int|
        d != b.0 && !attached_to(cols[c], d) implies #[trigger] body_mass(after, d) == body_mass(
        cols,
        d,
    ) by {
        assert(add_models(body_mass(after, d), share(cols[c], d)) == add_models(
            body_mass(cols, d),
            share(r, d),
        ));
    }
}

/// Attaching two colliders gives the same table, and so the same aggregate for every body,
/// in either order (for one collider, when both attachments go to the same body).
pub proof fn lemma_attach_order_independent(
    cols: Seq<ColliderRecord>,
    c1: int,
    b1: BodyHandle,
    c2: int,
    b2: BodyHandle,
)
    requires
        0 <= c1 < cols.len(),
        0 <= c2 < cols.len(),
        c1 != c2 || b1 == b2,
    ensures
        attached(attached(cols, c1, b1), c2, b2) == attached(attached(cols, c2, b2), c1, b1),
        forall|d: int|
            #[trigger] body_mass(attached(attached(cols, c1, b1), c2, b2), d) == body_mass(
                attached(attached(cols, c2, b2), c1, b1),
                d,
            ),
{
    assert(attached(attached(cols, c1, b1), c2, b2) =~= attached(attached(cols, c2, b2), c1, b1));
}

/// A body that no collider attaches to has zero mass, zero moment and zero inertia.
pub proof fn lemma_unattached_body_massless(cols: Seq<ColliderRecord>, b: int)
    requires
        forall|i: int| 0 <= i < cols.len() ==> !attached_to(#[trigger] cols[i], b),
    ensures
        body_mass(cols, b) == zero_model(),
{
    lemma_unattached_prefix(cols, b, cols.len());
}

proof fn lemma_unattached_prefix(cols: Seq<ColliderRecord>, b: int, n: nat)
    requires
        n <= cols.len(),
        forall|i: int| 0 <= i < cols.len() ==> !attached_to(#[trigger] cols[i], b),
    ensures
        aggregate(cols, b, n) == zero_model(),
    decreases n,
{
    if n > 0 {
        lemma_unattached_prefix(cols, b, (n - 1) as nat);
        assert(!attached_to(cols[n - 1], b));
    }
}

/// A successful toggle attaches the entity's collider to the target candidate's body; the body
/// it left no longer counts its contribution, and the target's body now does.
pub proof fn lemma_toggle_moves_mass(m: WorldModel, e: Entity)
    requires
        model_wf(m),
        toggle_spec(m, e).1 is Ok,
    ensures
        ({
            let m1 = toggle_spec(m, e).0;
            let c = (m.collider_of[e.0 as int]->0).0 as int;
            let target = m.body_of[toggle_target_of(m, e).0 as int]->0;
            let shape = m.colliders[c].shape;
            &&& m1.colliders[c].body == Some(target)
            &&& (m.colliders[c].body is Some && m.colliders[c].body->0 != target) ==> add_models(
                body_mass(m1.colliders, (m.colliders[c].body->0).0 as int),
                contribution(shape),
            ) == body_mass(m.colliders, (m.colliders[c].body->0).0 as int)
            &&& !attached_to(m.colliders[c], target.0 as int) ==> body_mass(
                m1.colliders,
                target.0 as int,
            ) == add_models(body_mass(m.colliders, target.0 as int), contribution(shape))
        }),
{
    let c = (m.collider_of[e.0 as int]->0).0 as int;
    let target = m.body_of[toggle_target_of(m, e).0 as int]->0;
    assert(toggle_spec(m, e).0.colliders == attached(m.colliders, c, target));
    lemma_attach_moves_mass(m.colliders, c, target);
}

/// Toggling two different entities gives the same world in either order, when every toggle
/// involved succeeds.
pub proof fn lemma_toggles_commute(m: WorldModel, e1: Entity, e2: Entity)
    requires
        model_wf(m),
        e1 != e2,
        toggle_spec(m, e1).1 is Ok,
        toggle_spec(toggle_spec(m, e1).0, e2).1 is Ok,
        toggle_spec(m, e2).1 is Ok,
        toggle_spec(toggle_spec(m, e2).0, e1).1 is Ok,
    ensures
        toggle_spec(toggle_spec(m, e1).0, e2).0 == toggle_spec(toggle_spec(m, e2).0, e1).0,
{
    let c1 = (m.collider_of[e1.0 as int]->0).0 as int;
    let c2 = (m.collider_of[e2.0 as int]->0).0 as int;
    assert(m.colliders[c1].entity == e1);
    assert(m.colliders[c2].entity == e2);
    let m1 = toggle_spec(m, e1).0;
    let m2 = toggle_spec(m, e2).0;
    assert(owner_entity(m1, c2) == owner_entity(m, c2));
    assert(owner_entity(m2, c1) == owner_entity(m, c1));
    let a = toggle_spec(m1, e2).0;
    let b = toggle_spec(m2, e1).0;
    assert(a.parents =~= b.parents);
    assert(a.colliders =~= b.colliders);
}

} // verus!
