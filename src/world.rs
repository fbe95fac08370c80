//! The world: one scene graph, one physics mirror and one replica cache over a shared set of
//! entities, and the reparenting protocol that moves a collider between two candidate bodies
//! in both graphs as a single transaction.
use crate::mass::{Cuboid, MassProperties};
use crate::physics::{
    body_mass, with_body, BodyHandle, ColliderHandle, ColliderRecord, PhysicsError, PhysicsMirror,
};
use crate::replica::ReplicaCache;
use crate::scene::{graph_wf, is_ancestor, Entity, SceneError, SceneGraph};
use vstd::prelude::*;

verus! {

/// The two bodies, named by the entities that carry them, between which an entity's collider
/// is toggled.
#[derive(Clone, Copy, Debug, PartialEq, Eq, Structural)]
pub struct ParentToggle {
    pub parent1: Entity,
    pub parent2: Entity,
}

#[derive(Clone, Copy, Debug, PartialEq, Eq, Structural)]
pub enum ReparentError {
    /// The entity does not exist or has no pair of candidate bodies.
    UnknownEntity,
    /// The entity carries no collider.
    UnknownCollider,
    /// The candidate to move to carries no body.
    UnknownBody,
    /// The scene graph refused the new parent; both graphs were left as they were.
    ReparentFailed,
}

#[derive(Clone, Copy, Debug, PartialEq, Eq, Structural)]
pub enum SetupError {
    UnknownEntity,
    AlreadyHasBody,
    AlreadyHasCollider,
    Physics(PhysicsError),
}

/// Per-entity tables are indexed by entity: `toggles[e]`, `collider_of[e]`, `body_of[e]`.
pub struct World {
    pub scene: SceneGraph,
    pub physics: PhysicsMirror,
    pub replica: ReplicaCache,
    pub toggles: Vec<Option<ParentToggle>>,
    pub collider_of: Vec<Option<ColliderHandle>>,
    pub body_of: Vec<Option<BodyHandle>>,
}

/// Mathematical value of a `World`.
#[verifier::ext_equal]
pub ghost struct WorldModel {
    pub parents: Seq<Option<Entity>>,
    pub bodies: Seq<Entity>,
    pub colliders: Seq<ColliderRecord>,
    pub replica: Seq<Option<MassProperties>>,
    pub toggles: Seq<Option<ParentToggle>>,
    pub collider_of: Seq<Option<ColliderHandle>>,
    pub body_of: Seq<Option<BodyHandle>>,
}

impl View for World {
    type V = WorldModel;

    open spec fn view(&self) -> WorldModel {
        WorldModel {
            parents: self.scene.parents@,
            bodies: self.physics.bodies@,
            colliders: self.physics.colliders@,
            replica: self.replica.entries@,
            toggles: self.toggles@,
            collider_of: self.collider_of@,
            body_of: self.body_of@,
        }
    }
}

/// The entity that carries the body collider `c` attaches to, if it attaches to one.
pub open spec fn owner_entity(m: WorldModel, c: int) -> Option<Entity> {
    match m.colliders[c].body {
        Some(b) => Some(m.bodies[b.0 as int]),
        None => None,
    }
}

/// The candidate other than the current owner: `parent2` when the owner is `parent1`, else
/// `parent1`.
pub open spec fn toggle_target(t: ParentToggle, owner: Option<Entity>) -> Entity {
    if owner == Some(t.parent1) {
        t.parent2
    } else {
        t.parent1
    }
}

pub open spec fn model_wf(m: WorldModel) -> bool {
    let n = m.parents.len();
    &&& graph_wf(m.parents)
    &&& m.toggles.len() == n
    &&& m.collider_of.len() == n
    &&& m.body_of.len() == n
    &&& m.replica.len() == m.bodies.len()
    &&& m.colliders.len() <= crate::physics::MAX_COLLIDERS
    &&& forall|i: int|
        0 <= i < m.colliders.len() ==> (#[trigger] m.colliders[i]).shape.valid() && (
        m.colliders[i].body matches Some(h) ==> h.0 < m.bodies.len()) && m.colliders[i].entity.0
            < n && m.collider_of[m.colliders[i].entity.0 as int] == Some(ColliderHandle(i as usize))
    &&& forall|b: int|
        0 <= b < m.bodies.len() ==> (#[trigger] m.bodies[b]).0 < n && m.body_of[m.bodies[b].0 as int]
            == Some(BodyHandle(b as usize))
    &&& forall|e: int|
        0 <= e < n && (#[trigger] m.collider_of[e]) is Some ==> (m.collider_of[e]->0).0
            < m.colliders.len() && m.colliders[(m.collider_of[e]->0).0 as int].entity == Entity(
            e as usize,
        )
    &&& forall|e: int|
        0 <= e < n && (#[trigger] m.body_of[e]) is Some ==> (m.body_of[e]->0).0 < m.bodies.len()
            && m.bodies[(m.body_of[e]->0).0 as int] == Entity(e as usize)
    &&& forall|e: int|
        0 <= e < n && (#[trigger] m.toggles[e]) is Some ==> (m.toggles[e]->0).parent1.0 < n && (
        m.toggles[e]->0).parent2.0 < n
}

/// What `toggle` does: the world afterwards, and the result.
pub open spec fn toggle_spec(m: WorldModel, e: Entity) -> (WorldModel, Result<(), ReparentError>) {
    if e.0 >= m.parents.len() || m.toggles[e.0 as int] is None {
        (m, Err(ReparentError::UnknownEntity))
    } else if m.collider_of[e.0 as int] is None {
        (m, Err(ReparentError::UnknownCollider))
    } else {
        let c = (m.collider_of[e.0 as int]->0).0 as int;
        let target = toggle_target(m.toggles[e.0 as int]->0, owner_entity(m, c));
        if m.body_of[target.0 as int] is None {
            (m, Err(ReparentError::UnknownBody))
        } else if is_ancestor(m.parents, e.0 as int, target.0 as int) {
            (m, Err(ReparentError::ReparentFailed))
        } else {
            (
                WorldModel {
                    parents: m.parents.update(e.0 as int, Some(target)),
                    colliders: m.colliders.update(
                        c,
                        with_body(m.colliders[c], m.body_of[target.0 as int]),
                    ),
                    ..m
                },
                Ok(()),
            )
        }
    }
}

impl World {
    pub open spec fn wf(&self) -> bool {
        model_wf(self@)
    }

    pub fn new() -> (r: World)
        ensures
            r.wf(),
            r@.parents.len() == 0,
            r@.bodies.len() == 0,
            r@.colliders.len() == 0,
    {
        World {
            scene: SceneGraph::new(),
            physics: PhysicsMirror::new(),
            replica: ReplicaCache::new(),
            toggles: Vec::new(),
            collider_of: Vec::new(),
            body_of: Vec::new(),
        }
    }

    /// Adds an entity with no parent, body, collider or candidate pair.
    pub fn spawn(&mut self) -> (r: Entity)
        requires
            old(self).wf(),
            old(self)@.parents.len() < usize::MAX,
        ensures
            final(self).wf(),
            r.0 == old(self)@.parents.len(),
            final(self)@ == (WorldModel {
                parents: old(self)@.parents.push(None),
                toggles: old(self)@.toggles.push(None),
                collider_of: old(self)@.collider_of.push(None),
                body_of: old(self)@.body_of.push(None),
                ..old(self)@
            }),
    {
        let r = self.scene.spawn();
        self.toggles.push(None);
        self.collider_of.push(None);
        self.body_of.push(None);
        r
    }

    /// Gives entity `e` a rigid body.
    pub fn add_body(&mut self, e: Entity) -> (r: Result<BodyHandle, SetupError>)
        requires
            old(self).wf(),
            old(self)@.bodies.len() < usize::MAX,
        ensures
            final(self).wf(),
            r == Err::<BodyHandle, SetupError>(SetupError::UnknownEntity) <==> e.0 >= old(
                self,
            )@.parents.len(),
            r == Err::<BodyHandle, SetupError>(SetupError::AlreadyHasBody) <==> (e.0 < old(
                self,
            )@.parents.len() && old(self)@.body_of[e.0 as int] is Some),
            r is Ok <==> (e.0 < old(self)@.parents.len() && old(self)@.body_of[e.0 as int] is None),
            r is Err ==> final(self)@ == old(self)@,
            r matches Ok(b) ==> b.0 == old(self)@.bodies.len() && final(self)@ == (WorldModel {
                bodies: old(self)@.bodies.push(e),
                replica: old(self)@.replica.push(None),
                body_of: old(self)@.body_of.update(e.0 as int, Some(b)),
                ..old(self)@
            }),
    {
        if e.0 >= self.body_of.len() {
            return Err(SetupError::UnknownEntity);
        }
        if self.body_of[e.0].is_some() {
            return Err(SetupError::AlreadyHasBody);
        }
        let b = self.physics.add_body(e);
        self.replica.push_empty();
        self.body_of.set(e.0, Some(b));
        Ok(b)
    }

    /// Gives entity `e` a collider, attached to `body` if one is given.
    pub fn add_collider(&mut self, e: Entity, shape: Cuboid, body: Option<BodyHandle>) -> (r:
        Result<ColliderHandle, SetupError>)
        requires
            old(self).wf(),
        ensures
            final(self).wf(),
            r == Err::<ColliderHandle, SetupError>(SetupError::UnknownEntity) <==> e.0 >= old(
                self,
            )@.parents.len(),
            r == Err::<ColliderHandle, SetupError>(SetupError::AlreadyHasCollider) <==> (e.0 < old(
                self,
            )@.parents.len() && old(self)@.collider_of[e.0 as int] is Some),
            r is Err ==> final(self)@ == old(self)@,
            r matches Ok(c) ==> c.0 == old(self)@.colliders.len() && final(self)@ == (WorldModel {
                colliders: old(self)@.colliders.push(ColliderRecord { entity: e, shape, body }),
                collider_of: old(self)@.collider_of.update(e.0 as int, Some(c)),
                ..old(self)@
            }),
            (e.0 < old(self)@.parents.len() && old(self)@.collider_of[e.0 as int] is None) ==> (
            r is Ok <==> (shape.valid() && !crate::physics::names_unknown_body(
                body,
                old(self)@.bodies.len(),
            ) && old(self)@.colliders.len() < crate::physics::MAX_COLLIDERS)),
    {
        if e.0 >= self.collider_of.len() {
            return Err(SetupError::UnknownEntity);
        }
        if self.collider_of[e.0].is_some() {
            return Err(SetupError::AlreadyHasCollider);
        }
        match self.physics.add_collider(e, shape, body) {
            Ok(c) => {
                self.collider_of.set(e.0, Some(c));
                Ok(c)
            },
            Err(err) => Err(SetupError::Physics(err)),
        }
    }

    /// Records the pair of candidate bodies between which `e`'s collider toggles.
    pub fn set_toggle(&mut self, e: Entity, t: ParentToggle) -> (r: Result<(), SetupError>)
        requires
            old(self).wf(),
        ensures
            final(self).wf(),
            r is Err <==> (e.0 >= old(self)@.parents.len() || t.parent1.0 >= old(
                self,
            )@.parents.len() || t.parent2.0 >= old(self)@.parents.len()),
            r matches Err(err) ==> err == SetupError::UnknownEntity,
            r is Err ==> final(self)@ == old(self)@,
            r is Ok ==> final(self)@ == (WorldModel {
                toggles: old(self)@.toggles.update(e.0 as int, Some(t)),
                ..old(self)@
            }),
    {
        let n = self.toggles.len();
        if e.0 >= n || t.parent1.0 >= n || t.parent2.0 >= n {
            return Err(SetupError::UnknownEntity);
        }
        self.toggles.set(e.0, Some(t));
        Ok(())
    }

    /// Sets a scene-graph parent directly, without touching the physics mirror.
    pub fn set_scene_parent(&mut self, child: Entity, parent: Entity) -> (r: Result<(), SceneError>)
        requires
            old(self).wf(),
        ensures
            final(self).wf(),
            r is Err <==> (child.0 >= old(self)@.parents.len() || parent.0 >= old(
                self,
            )@.parents.len() || is_ancestor(old(self)@.parents, child.0 as int, parent.0 as int)),
            r is Err ==> final(self)@ == old(self)@,
            r is Ok ==> final(self)@ == (WorldModel {
                parents: old(self)@.parents.update(child.0 as int, Some(parent)),
                ..old(self)@
            }),
    {
        self.scene.set_parent(child, parent)
    }

    /// Attaches a collider to a body in the physics mirror only, leaving the scene graph as it is.
    pub fn attach_collider(&mut self, collider: ColliderHandle, body: BodyHandle) -> (r: Result<
        (),
        PhysicsError,
    >)
        requires
            old(self).wf(),
        ensures
            final(self).wf(),
            r is Err <==> (collider.0 >= old(self)@.colliders.len() || body.0 >= old(
                self,
            )@.bodies.len()),
            r is Err ==> final(self)@ == old(self)@,
            r is Ok ==> final(self)@ == (WorldModel {
                colliders: old(self)@.colliders.update(
                    collider.0 as int,
                    with_body(old(self)@.colliders[collider.0 as int], Some(body)),
                ),
                ..old(self)@
            }),
    {
        self.physics.attach(collider, body)
    }

    /// Copies `body`'s current mass properties into the replica cache.
    pub fn snapshot(&mut self, body: BodyHandle) -> (r: Result<(), PhysicsError>)
        requires
            old(self).wf(),
        ensures
            final(self).wf(),
            r is Err <==> body.0 >= old(self)@.bodies.len(),
            r is Err ==> final(self)@ == old(self)@,
            r is Ok ==> final(self)@.replica == old(self)@.replica.update(
                body.0 as int,
                final(self)@.replica[body.0 as int],
            ),
            r is Ok ==> (final(self)@.replica[body.0 as int] matches Some(mp) && mp@ == body_mass(
                old(self)@.colliders,
                body.0 as int,
            )),
            r is Ok ==> final(self)@ == (WorldModel { replica: final(self)@.replica, ..old(self)@ }),
    {
        match self.physics.mass_properties(body) {
            Ok(mp) => {
                self.replica.store(body, mp);
                Ok(())
            },
            Err(err) => Err(err),
        }
    }

    /// Moves `e`'s collider to the other of its two candidate bodies, and makes that body's
    /// entity `e`'s parent in the scene graph. The physics step goes first; if the scene graph
    /// then refuses the edge, the physics step is undone and both graphs are left unchanged.
    pub fn toggle(&mut self, e: Entity) -> (r: Result<(), ReparentError>)
        requires
            old(self).wf(),
        ensures
            final(self).wf(),
            (final(self)@, r) == toggle_spec(old(self)@, e),
    {
        if e.0 >= self.toggles.len() {
            return Err(ReparentError::UnknownEntity);
        }
        let t = match self.toggles[e.0] {
            Some(t) => t,
            None => {
                return Err(ReparentError::UnknownEntity);
            },
        };
        let c = match self.collider_of[e.0] {
            Some(c) => c,
            None => {
                return Err(ReparentError::UnknownCollider);
            },
        };
        let previous = self.physics.colliders[c.0].body;
        let owner = match previous {
            Some(b) => Some(self.physics.bodies[b.0]),
            None => None,
        };
        let target = if owner == Some(t.parent1) {
            t.parent2
        } else {
            t.parent1
        };
        let b = match self.body_of[target.0] {
            Some(b) => b,
            None => {
                return Err(ReparentError::UnknownBody);
            },
        };
        let ghost m = self@;
        let _ = self.physics.attach(c, b);
        match self.scene.set_parent(e, target) {
            Ok(()) => {
                assert(self@ =~= toggle_spec(m, e).0);
                Ok(())
            },
            Err(_) => {
                let _ = match previous {
                    Some(a) => self.physics.attach(c, a),
                    None => self.physics.detach(c),
                };
                assert(self.physics.colliders@ =~= m.colliders);
                assert(self@ =~= m);
                Err(ReparentError::ReparentFailed)
            },
        }
    }
}

} // verus!
