//! The replica cache: a copy of each body's mass properties taken when it was recorded, and
//! never refreshed on its own.
use crate::mass::MassProperties;
use crate::physics::BodyHandle;
use vstd::prelude::*;

verus! {

/// `entries[b]` is the copy recorded for body `b`, if any.
pub struct ReplicaCache {
    pub entries: Vec<Option<MassProperties>>,
}

impl ReplicaCache {
    pub fn new() -> (r: ReplicaCache)
        ensures
            r.entries@.len() == 0,
    {
        ReplicaCache { entries: Vec::new() }
    }

    /// Makes room for one more body, with nothing recorded for it.
    pub fn push_empty(&mut self)
        ensures
            final(self).entries@ == old(self).entries@.push(None),
    {
        self.entries.push(None);
    }

    /// Records `m` as the copy for `body`.
    pub fn store(&mut self, body: BodyHandle, m: MassProperties)
        requires
            body.0 < old(self).entries@.len(),
        ensures
            final(self).entries@ == old(self).entries@.update(body.0 as int, Some(m)),
    {
        self.entries.set(body.0, Some(m));
    }

    /// The copy recorded for `body`, if any.
    pub fn get(&self, body: BodyHandle) -> (r: Option<MassProperties>)
        ensures
            body.0 < self.entries@.len() ==> r == self.entries@[body.0 as int],
            body.0 >= self.entries@.len() ==> r is None,
    {
        if body.0 < self.entries.len() {
            self.entries[body.0]
        } else {
            None
        }
    }
}

} // verus!
