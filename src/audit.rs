//! The discrepancy auditor: read-only passes that compare the scene graph with the physics
//! mirror, and the replica cache with freshly derived mass properties. Drift is reported,
//! never corrected.
use crate::mass::MassProperties;
use crate::physics::{body_mass, BodyHandle};
use crate::scene::Entity;
use crate::world::{owner_entity, World, WorldModel};
use vstd::prelude::*;

verus! {

/// An entity whose scene-graph parent is not the entity carrying the body its collider
/// attaches to.
#[derive(Clone, Copy, Debug, PartialEq, Eq, Structural)]
pub struct HierarchyMismatch {
    pub entity: Entity,
    pub scene_parent: Option<Entity>,
    pub physics_owner: Option<Entity>,
}

/// A body whose cached mass properties differ from those derived now.
#[derive(Clone, Copy, Debug, PartialEq, Eq, Structural)]
pub struct MassMismatch {
    pub body: BodyHandle,
    pub cached: MassProperties,
    pub live: MassProperties,
}

/// Both kinds of report from one audit.
pub struct AuditReport {
    pub hierarchy: Vec<HierarchyMismatch>,
    pub mass: Vec<MassMismatch>,
}

/// Collider `c`'s entity has as scene parent the entity that carries `c`'s body.
pub open spec fn hierarchy_agrees(m: WorldModel, c: int) -> bool {
    m.parents[m.colliders[c].entity.0 as int] == owner_entity(m, c)
}

/// The colliders among the first `n` whose entity's parent disagrees with their owner, in order.
pub open spec fn hierarchy_mismatches(m: WorldModel, n: nat) -> Seq<int>
    decreases n,
{
    if n == 0 {
        Seq::empty()
    } else {
        let rest = hierarchy_mismatches(m, (n - 1) as nat);
        if hierarchy_agrees(m, n - 1) {
            rest
        } else {
            rest.push(n - 1)
        }
    }
}

pub open spec fn hierarchy_report(m: WorldModel, c: int) -> HierarchyMismatch {
    let e = m.colliders[c].entity;
    HierarchyMismatch {
        entity: e,
        scene_parent: m.parents[e.0 as int],
        physics_owner: owner_entity(m, c),
    }
}

/// Body `b` has no cached copy, or its cached copy equals its mass properties now.
/// Aggregates are exact integers, so agreement within tolerance is equality.
pub open spec fn mass_agrees(m: WorldModel, b: int) -> bool {
    m.replica[b] matches Some(cached) ==> cached@ == body_mass(m.colliders, b)
}

/// The bodies among the first `n` whose cached copy is stale, in order.
pub open spec fn mass_mismatches(m: WorldModel, n: nat) -> Seq<int>
    decreases n,
{
    if n == 0 {
        Seq::empty()
    } else {
        let rest = mass_mismatches(m, (n - 1) as nat);
        if mass_agrees(m, n - 1) {
            rest
        } else {
            rest.push(n - 1)
        }
    }
}

/// `r` reports exactly the colliders of `hierarchy_mismatches`, in order.
pub open spec fn reports_hierarchy(m: WorldModel, r: Seq<HierarchyMismatch>) -> bool {
    let hm = hierarchy_mismatches(m, m.colliders.len());
    r.len() == hm.len() && forall|i: int| 0 <= i < r.len() ==> #[trigger] r[i] == hierarchy_report(m, hm[i])
}

/// `r` reports exactly the bodies of `mass_mismatches`, in order, each with its cached and
/// current mass properties.
pub open spec fn reports_mass(m: WorldModel, r: Seq<MassMismatch>) -> bool {
    let mm = mass_mismatches(m, m.bodies.len());
    &&& r.len() == mm.len()
    &&& forall|i: int|
        0 <= i < r.len() ==> (#[trigger] r[i]).body.0 == mm[i] && Some(r[i].cached) == m.replica[mm[i]]
            && r[i].live@ == body_mass(m.colliders, mm[i])
}

/// Compares, for every collider, its entity's scene parent with the entity owning its body.
pub fn hierarchy_check(w: &World) -> (r: Vec<HierarchyMismatch>)
    requires
        w.wf(),
    ensures
        reports_hierarchy(w@, r@),
{
    let ghost m = w@;
    let mut r: Vec<HierarchyMismatch> = Vec::new();
    let mut i: usize = 0;
    while i < w.physics.colliders.len()
        invariant
            w.wf(),
            m == w@,
            i <= m.colliders.len(),
            r@.len() == hierarchy_mismatches(m, i as nat).len(),
            forall|j: int|
                0 <= j < r@.len() ==> #[trigger] r@[j] == hierarchy_report(
                    m,
                    hierarchy_mismatches(m, i as nat)[j],
                ),
        decreases m.colliders.len() - i,
    {
        let rec = w.physics.colliders[i];
        let owner = match rec.body {
            Some(b) => Some(w.physics.bodies[b.0]),
            None => None,
        };
        let parent = w.scene.parents[rec.entity.0];
        if parent != owner {
            r.push(HierarchyMismatch { entity: rec.entity, scene_parent: parent, physics_owner: owner });
        }
        i = i + 1;
    }
    r
}

/// Compares, for every body with a cached copy, that copy with its mass properties now.
pub fn mass_check(w: &World) -> (r: Vec<MassMismatch>)
    requires
        w.wf(),
    ensures
        reports_mass(w@, r@),
{
    let ghost m = w@;
    let mut r: Vec<MassMismatch> = Vec::new();
    let mut b: usize = 0;
    while b < w.physics.bodies.len()
        invariant
            w.wf(),
            m == w@,
            b <= m.bodies.len(),
            r@.len() == mass_mismatches(m, b as nat).len(),
            forall|j: int|
                0 <= j < r@.len() ==> (#[trigger] r@[j]).body.0 == mass_mismatches(m, b as nat)[j]
                    && Some(r@[j].cached) == m.replica[mass_mismatches(m, b as nat)[j]]
                    && r@[j].live@ == body_mass(m.colliders, mass_mismatches(m, b as nat)[j]),
        decreases m.bodies.len() - b,
    {
        if let Some(cached) = w.replica.get(BodyHandle(b)) {
            let live = match w.physics.mass_properties(BodyHandle(b)) {
                Ok(live) => live,
                Err(_) => {
                    assert(false);
                    cached
                },
            };
            if cached != live {
                r.push(MassMismatch { body: BodyHandle(b), cached, live });
            }
        }
        b = b + 1;
    }
    r
}

/// One audit request: every entity whose scene parent disagrees with its collider's owner,
/// and every body whose cached mass properties are stale.
pub fn print_masses(w: &World) -> (r: AuditReport)
    requires
        w.wf(),
    ensures
        reports_hierarchy(w@, r.hierarchy@),
        reports_mass(w@, r.mass@),
{
    audit(w)
}

/// Runs both passes.
pub fn audit(w: &World) -> (r: AuditReport)
    requires
        w.wf(),
    ensures
        reports_hierarchy(w@, r.hierarchy@),
        reports_mass(w@, r.mass@),
{
    AuditReport { hierarchy: hierarchy_check(w), mass: mass_check(w) }
}

} // verus!
