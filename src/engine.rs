//! Commands from outside (toggle one entity, toggle all, audit), each run to completion, and
//! the demonstration scene.
use crate::audit::{audit, reports_hierarchy, reports_mass, AuditReport};
use crate::mass::{Cuboid, Vec3};
use crate::physics::{body_mass, BodyHandle, ColliderHandle, ColliderRecord};
use crate::scene::Entity;
use crate::world::{toggle_spec, ParentToggle, ReparentError, World, WorldModel};
use vstd::prelude::*;

verus! {

/// Toggling, in index order, every entity among the first `k` that has a candidate pair: the
/// world afterwards and the failures, in order.
pub open spec fn toggle_all(m: WorldModel, k: nat) -> (WorldModel, Seq<(Entity, ReparentError)>)
    decreases k,
{
    if k == 0 {
        (m, Seq::empty())
    } else {
        let (m1, failures) = toggle_all(m, (k - 1) as nat);
        let e = Entity((k - 1) as usize);
        if m1.toggles[k - 1] is None {
            (m1, failures)
        } else {
            let (m2, r) = toggle_spec(m1, e);
            match r {
                Ok(_) => (m2, failures),
                Err(err) => (m2, failures.push((e, err))),
            }
        }
    }
}

/// Toggles every entity that has a candidate pair, in index order, and returns the failures.
pub fn toggle_parent(w: &mut World) -> (r: Vec<(Entity, ReparentError)>)
    requires
        old(w).wf(),
    ensures
        final(w).wf(),
        (final(w)@, r@) == toggle_all(old(w)@, old(w)@.parents.len()),
{
    let ghost m0 = w@;
    let n = w.toggles.len();
    let mut failures: Vec<(Entity, ReparentError)> = Vec::new();
    let mut i: usize = 0;
    while i < n
        invariant
            w.wf(),
            n == m0.parents.len(),
            i <= n,
            w@.parents.len() == n,
            w@.toggles == m0.toggles,
            (w@, failures@) == toggle_all(m0, i as nat),
        decreases n - i,
    {
        if w.toggles[i].is_some() {
            let e = Entity(i);
            match w.toggle(e) {
                Ok(()) => {},
                Err(err) => {
                    failures.push((e, err));
                },
            }
        }
        i = i + 1;
    }
    failures
}

#[derive(Clone, Copy, Debug, PartialEq, Eq, Structural)]
pub enum Command {
    Toggle(Entity),
    ToggleAll,
    Audit,
}

pub enum Response {
    Toggled(Result<(), ReparentError>),
    ToggledAll(Vec<(Entity, ReparentError)>),
    Audited(AuditReport),
}

/// Runs one command to completion. An audit leaves the world as it is.
pub fn process(w: &mut World, cmd: Command) -> (r: Response)
    requires
        old(w).wf(),
    ensures
        final(w).wf(),
        cmd matches Command::Toggle(e) ==> (r matches Response::Toggled(res) && (final(w)@, res)
            == toggle_spec(old(w)@, e)),
        cmd is ToggleAll ==> (r matches Response::ToggledAll(f) && (final(w)@, f@) == toggle_all(
            old(w)@,
            old(w)@.parents.len(),
        )),
        cmd is Audit ==> (r matches Response::Audited(a) && final(w)@ == old(w)@ && reports_hierarchy(
            old(w)@,
            a.hierarchy@,
        ) && reports_mass(old(w)@, a.mass@)),
{
    match cmd {
        Command::Toggle(e) => Response::Toggled(w.toggle(e)),
        Command::ToggleAll => Response::ToggledAll(toggle_parent(w)),
        Command::Audit => Response::Audited(audit(w)),
    }
}

/// A box of full sides `x`, `y`, `z`, density one, centered on its body's origin.
pub fn unit_density_box(x: i64, y: i64, z: i64) -> (r: Cuboid)
    ensures
        r == unit_density_box_spec(x, y, z),
{
    Cuboid { size: Vec3 { x, y, z }, density: 1, offset: Vec3 { x: 0, y: 0, z: 0 } }
}

/// The demonstration scene, lengths in tenths of a unit: entity 0 is the ground, a static
/// collider with no body; entity 1 a body with no collider; entities 2 and 3 two bodies; and
/// entity 4 a cube collider attached to entity 2's body, a scene child of entity 2, that
/// toggles between entities 2 and 3. The bodies of entities 2 and 3 have their mass
/// properties cached.
#[verifier::rlimit(50)]
pub fn setup_physics() -> (r: World)
    ensures
        r.wf(),
        r@.parents == seq![None, None, None, None, Some(Entity(2))],
        r@.bodies == seq![Entity(1), Entity(2), Entity(3)],
        r@.colliders == seq![
            ColliderRecord { entity: Entity(0), shape: unit_density_box_spec(4002, 2, 4002), body: None },
            ColliderRecord { entity: Entity(4), shape: unit_density_box_spec(20, 20, 20), body: Some(BodyHandle(1)) },
        ],
        r@.toggles == seq![
            None,
            None,
            None,
            None,
            Some(ParentToggle { parent1: Entity(2), parent2: Entity(3) }),
        ],
        r@.collider_of == seq![Some(ColliderHandle(0)), None, None, None, Some(ColliderHandle(1))],
        r@.body_of == seq![None, Some(BodyHandle(0)), Some(BodyHandle(1)), Some(BodyHandle(2)), None],
        r@.replica.len() == 3,
        r@.replica[0] is None,
        r@.replica[1] matches Some(mp) && mp@ == body_mass(r@.colliders, 1),
        r@.replica[2] matches Some(mp) && mp@ == body_mass(r@.colliders, 2),
{
    let mut w = World::new();
    let ground = w.spawn();
    let single = w.spawn();
    let parent1 = w.spawn();
    let parent2 = w.spawn();
    let child = w.spawn();
    assert(w@.collider_of =~= seq![None, None, None, None, None]);
    assert(w@.body_of =~= seq![None, None, None, None, None]);
    let ground_box = unit_density_box(4002, 2, 4002);
    let cube = unit_density_box(20, 20, 20);
    let _ = w.add_collider(ground, ground_box, None);
    assert(w@.colliders =~= seq![ColliderRecord { entity: ground, shape: ground_box, body: None }]);
    let _ = w.add_body(single);
    let _ = w.add_body(parent1);
    let _ = w.add_body(parent2);
    assert(w@.bodies =~= seq![Entity(1), Entity(2), Entity(3)]);
    assert(w@.body_of[4] is None);
    assert(w@.collider_of[4] is None);
    let _ = w.add_collider(child, cube, Some(BodyHandle(1)));
    let ghost cols = w@.colliders;
    assert(cols =~= seq![
        ColliderRecord { entity: ground, shape: ground_box, body: None },
        ColliderRecord { entity: child, shape: cube, body: Some(BodyHandle(1)) },
    ]);
    assert(w@.collider_of =~= seq![Some(ColliderHandle(0)), None, None, None, Some(ColliderHandle(1))]);
    assert(w@.body_of =~= seq![None, Some(BodyHandle(0)), Some(BodyHandle(1)), Some(BodyHandle(2)), None]);
    assert(w@.toggles =~= seq![None, None, None, None, None]);
    let _ = w.set_toggle(child, ParentToggle { parent1, parent2 });
    assert(w@.toggles =~= seq![
        None,
        None,
        None,
        None,
        Some(ParentToggle { parent1: Entity(2), parent2: Entity(3) }),
    ]);
    let _ = w.set_scene_parent(child, parent1);
    assert(w@.parents =~= seq![None, None, None, None, Some(Entity(2))]);
    assert(w@.replica =~= seq![None, None, None]);
    let _ = w.snapshot(BodyHandle(1));
    let _ = w.snapshot(BodyHandle(2));
    assert(w@.colliders == cols);
    assert(w@.toggles =~= seq![
        None,
        None,
        None,
        None,
        Some(ParentToggle { parent1: Entity(2), parent2: Entity(3) }),
    ]);
    w
}

pub open spec fn unit_density_box_spec(x: i64, y: i64, z: i64) -> Cuboid {
    Cuboid { size: Vec3 { x, y, z }, density: 1, offset: Vec3 { x: 0, y: 0, z: 0 } }
}

} // verus!
