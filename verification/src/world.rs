//! Shared simulation state: the entities (minions and resources), created
//! through typed factory calls that hand back an opaque identity, and
//! looked up again by that identity.

use vstd::prelude::*;
use crate::geometry::Position;

verus! {

/// An entity of the world: its identity and where it stands.
#[derive(Clone, Copy, Debug, PartialEq, Eq, Structural)]
pub struct Agent {
    pub id: u64,
    pub position: Position,
}

/// Entity storage.  Identities are handed out in creation order and are
/// never reused.
pub struct World {
    pub next_id: u64,
    pub minions: Vec<Agent>,
    pub resources: Vec<Agent>,
}

impl World {
    /// Every identity ever handed out is below `next_id`.
    pub open spec fn wf(&self) -> bool {
        &&& forall|i: int| 0 <= i < self.minions@.len() ==> #[trigger] self.minions@[i].id < self.next_id
        &&& forall|i: int| 0 <= i < self.resources@.len() ==> #[trigger] self.resources@[i].id < self.next_id
    }

    /// Is `id` the identity of some entity?
    pub open spec fn spec_contains_friend(&self, id: u64) -> bool {
        (exists|i: int| 0 <= i < self.minions@.len() && #[trigger] self.minions@[i].id == id)
            || (exists|i: int| 0 <= i < self.resources@.len() && #[trigger] self.resources@[i].id == id)
    }

    pub fn new() -> (w: World)
        ensures
            w.wf(),
            w.minions@.len() == 0,
            w.resources@.len() == 0,
            w.next_id == 0,
    {
        World { next_id: 0, minions: Vec::new(), resources: Vec::new() }
    }

    /// Materialize a minion at `pos`; returns its fresh identity.
    pub fn new_minion(&mut self, pos: Position) -> (id: u64)
        requires
            old(self).wf(),
            old(self).next_id < u64::MAX,
        ensures
            final(self).wf(),
            id == old(self).next_id,
            final(self).next_id == old(self).next_id + 1,
            final(self).minions@ == old(self).minions@.push(Agent { id, position: pos }),
            final(self).resources@ == old(self).resources@,
            final(self).spec_contains_friend(id),
    {
        let id = self.next_id;
        self.minions.push(Agent { id, position: pos });
        self.next_id = self.next_id + 1;
        proof {
            assert(self.minions@[self.minions@.len() - 1].id == id);
        }
        id
    }

    /// Materialize a resource at `pos`; returns its fresh identity.
    pub fn new_resource(&mut self, pos: Position) -> (id: u64)
        requires
            old(self).wf(),
            old(self).next_id < u64::MAX,
        ensures
            final(self).wf(),
            id == old(self).next_id,
            final(self).next_id == old(self).next_id + 1,
            final(self).resources@ == old(self).resources@.push(Agent { id, position: pos }),
            final(self).minions@ == old(self).minions@,
            final(self).spec_contains_friend(id),
    {
        let id = self.next_id;
        self.resources.push(Agent { id, position: pos });
        self.next_id = self.next_id + 1;
        proof {
            assert(self.resources@[self.resources@.len() - 1].id == id);
        }
        id
    }

    /// Is there an entity with this identity?  The frame driver checks
    /// this before registering a freshly created entity with physics.
    pub fn contains_friend(&self, id: u64) -> (r: bool)
        ensures
            r == self.spec_contains_friend(id),
    {
        let mut i: usize = 0;
        while i < self.minions.len()
            invariant
                i <= self.minions@.len(),
                forall|j: int| 0 <= j < i ==> #[trigger] self.minions@[j].id != id,
            decreases self.minions@.len() - i,
        {
            if self.minions[i].id == id {
                return true;
            }
            i = i + 1;
        }
        let mut i: usize = 0;
        while i < self.resources.len()
            invariant
                i <= self.resources@.len(),
                forall|j: int| 0 <= j < i ==> #[trigger] self.resources@[j].id != id,
                forall|j: int| 0 <= j < self.minions@.len() ==> #[trigger] self.minions@[j].id != id,
            decreases self.resources@.len() - i,
        {
            if self.resources[i].id == id {
                return true;
            }
            i = i + 1;
        }
        false
    }

    /// How many minions exist.
    pub fn minions_count(&self) -> (n: usize)
        ensures
            n == self.minions@.len(),
    {
        self.minions.len()
    }

    /// How many resources exist.
    pub fn resources_count(&self) -> (n: usize)
        ensures
            n == self.resources@.len(),
    {
        self.resources.len()
    }

    /// The minion at a storage index, by copy.
    pub fn minion_at(&self, i: usize) -> (a: Agent)
        requires
            i < self.minions@.len(),
        ensures
            a == self.minions@[i as int],
    {
        self.minions[i]
    }

    /// The resource at a storage index, by copy.
    pub fn resource_at(&self, i: usize) -> (a: Agent)
        requires
            i < self.resources@.len(),
        ensures
            a == self.resources@[i as int],
    {
        self.resources[i]
    }
}

} // verus!
