//! Reconciliation of a scene graph with a physics attachment graph: reparenting colliders
//! between two candidate bodies in both graphs at once, and auditing the two graphs and a
//! cached copy of mass properties for drift.
pub mod mass;
pub mod scene;
pub mod physics;
pub mod replica;
pub mod world;
pub mod audit;
pub mod engine;
pub mod laws;
