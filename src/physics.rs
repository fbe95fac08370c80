//! The physics mirror: rigid bodies, box colliders and the collider-to-body attachment table.
//! A body's mass properties are derived afresh from the colliders attached to it.
use crate::mass::{
    add_models, contribution, contribution_bound, lemma_contribution_bounded, model_bounded,
    zero_model, Cuboid, MassModel, MassProperties,
};
use crate::scene::Entity;
use vstd::prelude::*;

verus! {

/// Most colliders one mirror holds; keeps every aggregate within `i128`.
pub const MAX_COLLIDERS: usize = 0x1000_0000;

#[derive(Clone, Copy, Debug, PartialEq, Eq, Structural)]
pub struct BodyHandle(pub usize);

#[derive(Clone, Copy, Debug, PartialEq, Eq, Structural)]
pub struct ColliderHandle(pub usize);

#[derive(Clone, Copy, Debug, PartialEq, Eq, Structural)]
pub enum PhysicsError {
    UnknownCollider,
    UnknownBody,
    /// A collider's box is outside the supported sizes, densities or offsets.
    InvalidShape,
    /// The mirror already holds `MAX_COLLIDERS` colliders.
    CapacityExceeded,
}

/// A collider, the entity that carries it, and the body it currently attaches to.
#[derive(Clone, Copy, Debug, PartialEq, Eq, Structural)]
pub struct ColliderRecord {
    pub entity: Entity,
    pub shape: Cuboid,
    pub body: Option<BodyHandle>,
}

/// `bodies[b]` is the entity that carries body `b`.
pub struct PhysicsMirror {
    pub bodies: Vec<Entity>,
    pub colliders: Vec<ColliderRecord>,
}

pub open spec fn attached_to(r: ColliderRecord, b: int) -> bool {
    r.body matches Some(h) && h.0 == b
}

/// Sum of the contributions of those among the first `n` colliders attached to body `b`.
pub open spec fn aggregate(cols: Seq<ColliderRecord>, b: int, n: nat) -> MassModel
    decreases n,
{
    if n == 0 {
        zero_model()
    } else {
        let rest = aggregate(cols, b, (n - 1) as nat);
        if attached_to(cols[n - 1], b) {
            add_models(rest, contribution(cols[n - 1].shape))
        } else {
            rest
        }
    }
}

/// The mass properties of body `b`: the aggregate of every collider attached to it.
pub open spec fn body_mass(cols: Seq<ColliderRecord>, b: int) -> MassModel {
    aggregate(cols, b, cols.len())
}

/// `body` names a body that the mirror, holding `n` bodies, does not have.
pub open spec fn names_unknown_body(body: Option<BodyHandle>, n: nat) -> bool {
    body matches Some(h) && h.0 >= n
}

pub open spec fn with_body(r: ColliderRecord, b: Option<BodyHandle>) -> ColliderRecord {
    ColliderRecord { entity: r.entity, shape: r.shape, body: b }
}

/// The attachment table after attaching collider `c` to body `b`.
pub open spec fn attached(cols: Seq<ColliderRecord>, c: int, b: BodyHandle) -> Seq<ColliderRecord> {
    cols.update(c, with_body(cols[c], Some(b)))
}

pub proof fn lemma_aggregate_bounded(cols: Seq<ColliderRecord>, b: int, n: nat)
    requires
        n <= cols.len(),
        forall|i: int| 0 <= i < cols.len() ==> (#[trigger] cols[i]).shape.valid(),
    ensures
        model_bounded(aggregate(cols, b, n), n * contribution_bound()),
    decreases n,
{
    if n > 0 {
        lemma_aggregate_bounded(cols, b, (n - 1) as nat);
        lemma_contribution_bounded(cols[n - 1].shape);
        assert(n * contribution_bound() == (n - 1) * contribution_bound() + contribution_bound())
            by (nonlinear_arith);
        assert((n - 1) * contribution_bound() >= 0) by (nonlinear_arith)
            requires
                n >= 1,
        ;
    }
}

impl PhysicsMirror {
    pub open spec fn wf(&self) -> bool {
        &&& self.colliders@.len() <= MAX_COLLIDERS
        &&& forall|i: int|
            0 <= i < self.colliders@.len() ==> (#[trigger] self.colliders@[i]).shape.valid() && (
            self.colliders@[i].body matches Some(h) ==> h.0 < self.bodies@.len())
    }

    pub fn new() -> (r: PhysicsMirror)
        ensures
            r.wf(),
            r.bodies@.len() == 0,
            r.colliders@.len() == 0,
    {
        PhysicsMirror { bodies: Vec::new(), colliders: Vec::new() }
    }

    pub fn body_count(&self) -> (r: usize)
        ensures
            r == self.bodies@.len(),
    {
        self.bodies.len()
    }

    pub fn collider_count(&self) -> (r: usize)
        ensures
            r == self.colliders@.len(),
    {
        self.colliders.len()
    }

    /// Adds a rigid body carried by `entity`, with no collider attached.
    pub fn add_body(&mut self, entity: Entity) -> (r: BodyHandle)
        requires
            old(self).wf(),
            old(self).bodies@.len() < usize::MAX,
        ensures
            final(self).wf(),
            r.0 == old(self).bodies@.len(),
            final(self).bodies@ == old(self).bodies@.push(entity),
            final(self).colliders@ == old(self).colliders@,
    {
        let r = BodyHandle(self.bodies.len());
        self.bodies.push(entity);
        r
    }

    /// Adds a collider carried by `entity`, attached to `body` if one is given.
    pub fn add_collider(&mut self, entity: Entity, shape: Cuboid, body: Option<BodyHandle>) -> (r:
        Result<ColliderHandle, PhysicsError>)
        requires
            old(self).wf(),
        ensures
            final(self).wf(),
            final(self).bodies@ == old(self).bodies@,
            r == Err::<ColliderHandle, PhysicsError>(PhysicsError::InvalidShape) <==> !shape.valid(),
            r == Err::<ColliderHandle, PhysicsError>(PhysicsError::UnknownBody) <==> (shape.valid()
                && names_unknown_body(body, old(self).bodies@.len())),
            r == Err::<ColliderHandle, PhysicsError>(PhysicsError::CapacityExceeded) <==> (shape.valid()
                && !names_unknown_body(body, old(self).bodies@.len())
                && old(self).colliders@.len() >= MAX_COLLIDERS),
            r is Ok <==> (shape.valid() && !names_unknown_body(body, old(self).bodies@.len())
                && old(self).colliders@.len() < MAX_COLLIDERS),
            r is Err ==> final(self).colliders@ == old(self).colliders@,
            r matches Ok(c) ==> c.0 == old(self).colliders@.len() && final(self).colliders@ == old(
                self,
            ).colliders@.push(ColliderRecord { entity, shape, body }),
    {
        if !shape.is_valid() {
            return Err(PhysicsError::InvalidShape);
        }
        if let Some(h) = body {
            if h.0 >= self.bodies.len() {
                return Err(PhysicsError::UnknownBody);
            }
        }
        if self.colliders.len() >= MAX_COLLIDERS {
            return Err(PhysicsError::CapacityExceeded);
        }
        let c = ColliderHandle(self.colliders.len());
        self.colliders.push(ColliderRecord { entity, shape, body });
        Ok(c)
    }

    /// Attaches `collider` to `body`, taking it out of whatever body held it before.
    pub fn attach(&mut self, collider: ColliderHandle, body: BodyHandle) -> (r: Result<
        (),
        PhysicsError,
    >)
        requires
            old(self).wf(),
        ensures
            final(self).wf(),
            final(self).bodies@ == old(self).bodies@,
            r == Err::<(), PhysicsError>(PhysicsError::UnknownCollider) <==> collider.0 >= old(
                self,
            ).colliders@.len(),
            r == Err::<(), PhysicsError>(PhysicsError::UnknownBody) <==> collider.0 < old(
                self,
            ).colliders@.len() && body.0 >= old(self).bodies@.len(),
            r is Err <==> (collider.0 >= old(self).colliders@.len() || body.0 >= old(
                self,
            ).bodies@.len()),
            r is Ok ==> final(self).colliders@ == attached(
                old(self).colliders@,
                collider.0 as int,
                body,
            ),
            r is Err ==> final(self).colliders@ == old(self).colliders@,
    {
        if collider.0 >= self.colliders.len() {
            return Err(PhysicsError::UnknownCollider);
        }
        if body.0 >= self.bodies.len() {
            return Err(PhysicsError::UnknownBody);
        }
        let rec = self.colliders[collider.0];
        self.colliders.set(
            collider.0,
            ColliderRecord { entity: rec.entity, shape: rec.shape, body: Some(body) },
        );
        Ok(())
    }

    /// Detaches `collider` from its body, if it has one.
    pub fn detach(&mut self, collider: ColliderHandle) -> (r: Result<(), PhysicsError>)
        requires
            old(self).wf(),
        ensures
            final(self).wf(),
            final(self).bodies@ == old(self).bodies@,
            r is Err <==> collider.0 >= old(self).colliders@.len(),
            r matches Err(e) ==> e == PhysicsError::UnknownCollider,
            r is Ok ==> final(self).colliders@ == old(self).colliders@.update(
                collider.0 as int,
                with_body(old(self).colliders@[collider.0 as int], None),
            ),
            r is Err ==> final(self).colliders@ == old(self).colliders@,
    {
        if collider.0 >= self.colliders.len() {
            return Err(PhysicsError::UnknownCollider);
        }
        let rec = self.colliders[collider.0];
        self.colliders.set(
            collider.0,
            ColliderRecord { entity: rec.entity, shape: rec.shape, body: None },
        );
        Ok(())
    }

    /// The body that `collider` is attached to, if any.
    pub fn attached_body(&self, collider: ColliderHandle) -> (r: Result<
        Option<BodyHandle>,
        PhysicsError,
    >)
        ensures
            r is Err <==> collider.0 >= self.colliders@.len(),
            r matches Err(e) ==> e == PhysicsError::UnknownCollider,
            r matches Ok(b) ==> b == self.colliders@[collider.0 as int].body,
    {
        if collider.0 >= self.colliders.len() {
            Err(PhysicsError::UnknownCollider)
        } else {
            Ok(self.colliders[collider.0].body)
        }
    }

    /// The entity that carries `body`.
    pub fn body_entity(&self, body: BodyHandle) -> (r: Option<Entity>)
        ensures
            body.0 < self.bodies@.len() ==> r == Some(self.bodies@[body.0 as int]),
            body.0 >= self.bodies@.len() ==> r is None,
    {
        if body.0 < self.bodies.len() {
            Some(self.bodies[body.0])
        } else {
            None
        }
    }

    /// The mass properties of `body`, derived now from the colliders attached to it.
    pub fn mass_properties(&self, body: BodyHandle) -> (r: Result<MassProperties, PhysicsError>)
        requires
            self.wf(),
        ensures
            r is Err <==> body.0 >= self.bodies@.len(),
            r matches Err(e) ==> e == PhysicsError::UnknownBody,
            r matches Ok(m) ==> m@ == body_mass(self.colliders@, body.0 as int),
    {
        if body.0 >= self.bodies.len() {
            return Err(PhysicsError::UnknownBody);
        }
        let ghost cols = self.colliders@;
        let mut acc = MassProperties::zero();
        let mut i: usize = 0;
        while i < self.colliders.len()
            invariant
                self.wf(),
                cols == self.colliders@,
                i <= cols.len(),
                acc@ == aggregate(cols, body.0 as int, i as nat),
            decreases cols.len() - i,
        {
            let rec = self.colliders[i];
            if let Some(h) = rec.body {
                if h.0 == body.0 {
                    proof {
                        lemma_aggregate_bounded(cols, body.0 as int, i as nat);
                        lemma_contribution_bounded(rec.shape);
                        assert(i * contribution_bound() + contribution_bound() <= i128::MAX)
                            by (nonlinear_arith)
                            requires
                                i < 0x1_0000_0000,
                        ;
                        assert(i * contribution_bound() >= 0) by (nonlinear_arith);
                    }
                    let c = MassProperties::of_cuboid(&rec.shape);
                    acc = acc.plus(&c);
                }
            }
            i = i + 1;
        }
        Ok(acc)
    }
}

} // verus!
