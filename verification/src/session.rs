//! One producer's live batch of entities, plus the dirty signal through
//! which the render loop learns that the batch changed.
//!
//! The dirty signal is a pair of counters rather than a bare boolean: `push`
//! advances a generation counter, and the consumer clears dirtiness by
//! reporting the generation it actually consumed. A push that lands between
//! the consumer's read and its `clean` call therefore leaves the session
//! dirty — clearing can never lose an unconsumed update.

use vstd::prelude::*;

use crate::entity::DebugEntity;

verus! {

pub struct Session {
    connection_id: u64,
    entities: Vec<DebugEntity>,
    generation: u64,
    cleaned: u64,
}

impl Session {
    /// The connection this session belongs to.
    pub closed spec fn connection_id_spec(self) -> u64 {
        self.connection_id
    }

    /// The entities of the batch, in arrival order — which is display order.
    pub closed spec fn entities_spec(self) -> Seq<DebugEntity> {
        self.entities@
    }

    /// How many pushes this session has seen.
    pub closed spec fn generation_spec(self) -> u64 {
        self.generation
    }

    /// The last generation the consumer reported as fully consumed.
    pub closed spec fn cleaned_spec(self) -> u64 {
        self.cleaned
    }

    /// The consumer can never have consumed more pushes than happened.
    pub open spec fn wf(self) -> bool {
        self.cleaned_spec() <= self.generation_spec()
    }

    /// Dirty: at least one push has not been consumed yet.
    pub open spec fn dirty_spec(self) -> bool {
        self.generation_spec() > self.cleaned_spec()
    }

    /// An empty, clean session for the given connection.
    pub fn new(connection_id: u64) -> (r: Session)
        ensures
            r.connection_id_spec() == connection_id,
            r.entities_spec() == Seq::<DebugEntity>::empty(),
            r.generation_spec() == 0,
            r.cleaned_spec() == 0,
            r.wf(),
            !r.dirty_spec(),
    {
        Session { connection_id, entities: Vec::new(), generation: 0, cleaned: 0 }
    }

    pub fn id(&self) -> (r: u64)
        ensures
            r == self.connection_id_spec(),
    {
        self.connection_id
    }

    /// Append an entity (no deduplication, no bound) and mark the session
    /// dirty by advancing the generation.
    pub fn push(&mut self, e: DebugEntity)
        requires
            old(self).generation_spec() < u64::MAX,
        ensures
            final(self).connection_id_spec() == old(self).connection_id_spec(),
            final(self).entities_spec() == old(self).entities_spec().push(e),
            final(self).generation_spec() == old(self).generation_spec() + 1,
            final(self).cleaned_spec() == old(self).cleaned_spec(),
            old(self).wf() ==> final(self).wf() && final(self).dirty_spec(),
    {
        self.entities.push(e);
        self.generation = self.generation + 1;
    }

    pub fn len(&self) -> (r: usize)
        ensures
            r == self.entities_spec().len(),
    {
        self.entities.len()
    }

    /// Read-only view of the batch.
    pub fn entities(&self) -> (r: &Vec<DebugEntity>)
        ensures
            r@ == self.entities_spec(),
    {
        &self.entities
    }

    pub fn is_dirty(&self) -> (r: bool)
        ensures
            r == self.dirty_spec(),
    {
        self.generation > self.cleaned
    }

    /// The generation a consumer must remember before reading the batch, to
    /// report back to `clean` once it has consumed everything it read.
    pub fn generation(&self) -> (r: u64)
        ensures
            r == self.generation_spec(),
    {
        self.generation
    }

    /// Mark everything up to the generation `observed` as consumed. Only
    /// raises the cleaned mark, never lowers it, so pushes that arrived after
    /// the observation stay visible as dirt.
    pub fn clean(&mut self, observed: u64)
        requires
            observed <= old(self).generation_spec(),
        ensures
            final(self).connection_id_spec() == old(self).connection_id_spec(),
            final(self).entities_spec() == old(self).entities_spec(),
            final(self).generation_spec() == old(self).generation_spec(),
            final(self).cleaned_spec() == cleaned_mark(old(self).cleaned_spec(), observed),
            old(self).wf() ==> final(self).wf(),
            final(self).dirty_spec() == (old(self).generation_spec() > cleaned_mark(
                old(self).cleaned_spec(),
                observed,
            )),
    {
        if observed > self.cleaned {
            self.cleaned = observed;
        }
    }

    /// Record the visual handle the render collaborator returned for the
    /// entity at `index`. Bookkeeping only: it is no content change, so the
    /// generation — and with it dirtiness — stays as it is.
    pub fn set_visual_handle(&mut self, index: usize, handle: u64)
        requires
            index < old(self).entities_spec().len(),
        ensures
            final(self).connection_id_spec() == old(self).connection_id_spec(),
            final(self).entities_spec() == old(self).entities_spec().update(
                index as int,
                old(self).entities_spec()[index as int].with_handle_spec(handle),
            ),
            final(self).generation_spec() == old(self).generation_spec(),
            final(self).cleaned_spec() == old(self).cleaned_spec(),
    {
        let updated = self.entities[index].with_visual_handle(handle);
        let slot = &mut self.entities[index];
        *slot = updated;
    }
}

/// The relation `push` establishes between the session before and after
/// appending `e`.
pub open spec fn session_pushed(pre: Session, post: Session, e: DebugEntity) -> bool {
    &&& post.connection_id_spec() == pre.connection_id_spec()
    &&& post.entities_spec() == pre.entities_spec().push(e)
    &&& post.generation_spec() == pre.generation_spec() + 1
    &&& post.cleaned_spec() == pre.cleaned_spec()
}

/// The relation `clean(observed)` establishes between the session before and
/// after.
pub open spec fn session_cleaned(pre: Session, post: Session, observed: u64) -> bool {
    &&& post.connection_id_spec() == pre.connection_id_spec()
    &&& post.entities_spec() == pre.entities_spec()
    &&& post.generation_spec() == pre.generation_spec()
    &&& post.cleaned_spec() == cleaned_mark(pre.cleaned_spec(), observed)
}

/// The cleaned mark after a consumer reports `observed`: it rises to
/// `observed` if that is ahead, and otherwise stays.
pub open spec fn cleaned_mark(cleaned: u64, observed: u64) -> u64 {
    if observed > cleaned {
        observed
    } else {
        cleaned
    }
}

/// Dirty-no-loss: a push that lands between a consumer's observation of the
/// generation and its `clean` call leaves the session dirty. `before` is the
/// session at observation time (so `observed <= before.generation`), `pushed`
/// the session after the concurrent push, `cleaned` the session after
/// `clean(observed)` — exactly the relations the contracts of `push` and
/// `clean` establish.
pub proof fn lemma_clean_cannot_lose_push(
    before: Session,
    pushed: Session,
    cleaned: Session,
    observed: u64,
)
    requires
        before.wf(),
        observed <= before.generation_spec(),
        pushed.generation_spec() == before.generation_spec() + 1,
        pushed.cleaned_spec() == before.cleaned_spec(),
        cleaned.generation_spec() == pushed.generation_spec(),
        cleaned.cleaned_spec() == cleaned_mark(pushed.cleaned_spec(), observed),
    ensures
        cleaned.dirty_spec(),
{
}

} // verus!
