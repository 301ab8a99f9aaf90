//! The entity registry: a process-wide, strictly increasing identity
//! allocator.
//!
//! Every entity that arrives without an id receives the next unused one;
//! ids are never reused, even after the entity is gone. Exhaustion of the
//! 64-bit counter is treated as a fault of the machine, not of the protocol:
//! `assign_id` demands a non-exhausted counter rather than wrapping around,
//! since wraparound would break uniqueness.

use vstd::prelude::*;

use crate::entity::DebugEntity;

verus! {

pub struct EntityRegistry {
    next: u64,
}

/// One fresh allocation step: `id` was handed out and the counter advanced
/// past it. Two chained steps can never hand out the same id.
pub open spec fn fresh_assign(pre: EntityRegistry, post: EntityRegistry, id: u64) -> bool {
    &&& id == pre.next_id()
    &&& post.next_id() == pre.next_id() + 1
}

impl EntityRegistry {
    /// The next identity this registry will hand out; every id assigned so
    /// far is strictly below it.
    pub closed spec fn next_id(self) -> u64 {
        self.next
    }

    /// What `assign_id` leaves in the entity: unchanged if it already has an
    /// identity, otherwise the registry's next id is written into it.
    pub open spec fn assigned_entity(self, e: DebugEntity) -> DebugEntity {
        if e.id is Some {
            e
        } else {
            DebugEntity { id: Some(self.next_id()), ..e }
        }
    }

    pub fn new() -> (r: EntityRegistry)
        ensures
            r.next_id() == 0,
    {
        EntityRegistry { next: 0 }
    }

    /// Whether the identity space is used up. Exhaustion is fatal to the
    /// process — `assign_id` refuses to wrap around — so a caller that
    /// cannot rule it out asks first.
    pub fn exhausted(&self) -> (r: bool)
        ensures
            r == (self.next_id() == u64::MAX),
    {
        self.next == u64::MAX
    }

    /// If the entity has no id yet, give it the next one and advance the
    /// counter; if it already has one, change nothing (idempotent).
    pub fn assign_id(&mut self, e: &mut DebugEntity)
        requires
            old(self).next_id() < u64::MAX,
        ensures
            *final(e) == old(self).assigned_entity(*old(e)),
            old(e).id is Some ==> *final(self) == *old(self),
            old(e).id is None ==> fresh_assign(*old(self), *final(self), final(e).id->0),
    {
        if e.id.is_none() {
            e.id = Some(self.next);
            self.next = self.next + 1;
        }
    }
}

impl Default for EntityRegistry {
    /// A registry whose first assigned id is 0.
    fn default() -> (r: EntityRegistry)
        ensures
            r.next_id() == 0,
    {
        EntityRegistry::new()
    }
}

/// Along any chain of fresh allocations the counter advances by exactly one
/// per step.
proof fn lemma_counter_advances(
    registries: Seq<EntityRegistry>,
    ids: Seq<u64>,
    i: int,
    j: int,
)
    requires
        registries.len() == ids.len() + 1,
        forall|k: int| 0 <= k < ids.len() ==> fresh_assign(registries[k], registries[k + 1], ids[k]),
        0 <= i <= j <= ids.len(),
    ensures
        registries[j].next_id() - registries[i].next_id() == j - i,
    decreases j - i,
{
    if i < j {
        lemma_counter_advances(registries, ids, i, j - 1);
        assert(fresh_assign(registries[j - 1], registries[j], ids[j - 1]));
    }
}

/// Uniqueness: however calls to `assign_id` interleave, the allocations they
/// perform are serialized into some chain of fresh steps, and along any such
/// chain the assigned ids are strictly increasing — in particular, no two
/// calls ever receive the same id.
pub proof fn lemma_assigned_ids_unique(registries: Seq<EntityRegistry>, ids: Seq<u64>)
    requires
        registries.len() == ids.len() + 1,
        forall|k: int| 0 <= k < ids.len() ==> fresh_assign(registries[k], registries[k + 1], ids[k]),
    ensures
        forall|i: int, j: int| 0 <= i < j < ids.len() ==> ids[i] < ids[j],
{
    assert forall|i: int, j: int| 0 <= i < j < ids.len() implies ids[i] < ids[j] by {
        lemma_counter_advances(registries, ids, i, j);
        assert(fresh_assign(registries[i], registries[i + 1], ids[i]));
        assert(fresh_assign(registries[j], registries[j + 1], ids[j]));
    }
}

/// Idempotence: once an entity carries an id, a later assignment — under any
/// registry state — returns the entity unchanged, so both calls yield the
/// same id.
pub proof fn lemma_assign_id_idempotent(first: EntityRegistry, second: EntityRegistry, e: DebugEntity)
    ensures
        second.assigned_entity(first.assigned_entity(e)) == first.assigned_entity(e),
{
}

} // verus!
