//! The session view state: what was rendered last tick, and the diff
//! between that and what should be rendered now.
//!
//! Once per render tick the viewer calls `tick`, which decides one of three
//! outcomes — do nothing, refresh the current session (its content changed),
//! or swap to another session — and returns the spawn/despawn instructions
//! for the render collaborator as plain values. The collaborator executes a
//! spawn, obtains an opaque visual handle, and reports it back through
//! `record_spawn`; despawn instructions carry the handle to take down.
//!
//! The view state keeps its own copy of the handles it has had spawned, so a
//! session that was removed from the table between ticks can still be
//! despawned cleanly.

use vstd::prelude::*;

use crate::entity::DebugEntity;
use crate::session::session_cleaned;
use crate::table::Sessions;

verus! {

/// One instruction to the render collaborator.
#[derive(Clone, Copy, PartialEq, Eq, Debug)]
pub enum RenderOp {
    /// Put the given entity of the given session on screen and report the
    /// resulting visual handle back through `record_spawn` with the same
    /// connection id and index.
    Spawn { connection_id: u64, index: usize, entity: DebugEntity },
    /// Take the on-screen object with this visual handle down.
    Despawn { handle: u64 },
}

/// Despawn instructions for the given handles, in order.
pub open spec fn despawn_ops(handles: Seq<u64>) -> Seq<RenderOp> {
    Seq::new(handles.len(), |i: int| RenderOp::Despawn { handle: handles[i] })
}

/// Spawn instructions for every entity of the batch, in display order.
pub open spec fn spawn_all_ops(conn: u64, entities: Seq<DebugEntity>) -> Seq<RenderOp> {
    Seq::new(
        entities.len(),
        |i: int| RenderOp::Spawn { connection_id: conn, index: i as usize, entity: entities[i] },
    )
}

/// Spawn instructions for exactly the entities that have no visual handle
/// yet, in display order; entities already on screen are untouched.
pub open spec fn spawn_fresh_ops(conn: u64, entities: Seq<DebugEntity>) -> Seq<RenderOp>
    decreases entities.len(),
{
    if entities.len() == 0 {
        Seq::empty()
    } else {
        let front = spawn_fresh_ops(conn, entities.drop_last());
        if entities.last().visual_handle is None {
            front.push(
                RenderOp::Spawn {
                    connection_id: conn,
                    index: (entities.len() - 1) as usize,
                    entity: entities.last(),
                },
            )
        } else {
            front
        }
    }
}

/// The table after a tick consumed session `c`: membership, the selection
/// and every other session are untouched, and `c`'s session was cleaned up
/// to the generation the tick observed — so it is no longer dirty, while its
/// content stayed as it was.
pub open spec fn table_cleaned_at(pre: Sessions, post: Sessions, c: u64) -> bool {
    &&& post.wf()
    &&& post.selected_spec() == pre.selected_spec()
    &&& (forall|x: u64| post.contains_conn(x) <==> pre.contains_conn(x))
    &&& (forall|x: u64| pre.contains_conn(x) && x != c ==> post.session_spec(x) == pre.session_spec(x))
    &&& session_cleaned(
        pre.session_spec(c),
        post.session_spec(c),
        pre.session_spec(c).generation_spec(),
    )
    &&& !post.session_spec(c).dirty_spec()
}

pub struct SessionsState {
    last_rendered: Option<u64>,
    rendered_handles: Vec<u64>,
}

impl SessionsState {
    /// The connection whose session the screen currently shows, if any.
    pub closed spec fn last_rendered_spec(self) -> Option<u64> {
        self.last_rendered
    }

    /// The visual handles of everything this view has had spawned and not
    /// yet despawned, in spawn order.
    pub closed spec fn handles_spec(self) -> Seq<u64> {
        self.rendered_handles@
    }

    /// A view that has rendered nothing yet.
    pub fn new() -> (r: SessionsState)
        ensures
            r.last_rendered_spec() is None,
            r.handles_spec() == Seq::<u64>::empty(),
    {
        SessionsState { last_rendered: None, rendered_handles: Vec::new() }
    }

    /// The connection whose session the screen currently shows, if any.
    pub fn last_rendered(&self) -> (r: Option<u64>)
        ensures
            r == self.last_rendered_spec(),
    {
        self.last_rendered
    }

    /// The visual handles this view has had spawned, in spawn order.
    pub fn rendered_handles(&self) -> (r: &Vec<u64>)
        ensures
            r@ == self.handles_spec(),
    {
        &self.rendered_handles
    }

    /// Whether the resolved selection is exactly what was rendered last —
    /// if not, the next tick swaps.
    pub fn is_current(&self, sessions: &Sessions) -> (r: bool)
        requires
            sessions.wf(),
        ensures
            r == (sessions.current_connection_spec() == self.last_rendered_spec()),
    {
        opt_eq(sessions.current_connection(), self.last_rendered)
    }

    /// Note the resolved selection as the one now rendered.
    pub fn update_current_session(&mut self, sessions: &Sessions)
        requires
            sessions.wf(),
        ensures
            final(self).last_rendered_spec() == sessions.current_connection_spec(),
            final(self).handles_spec() == old(self).handles_spec(),
    {
        self.last_rendered = sessions.current_connection();
    }

    fn build_despawn_ops(&self) -> (ops: Vec<RenderOp>)
        ensures
            ops@ == despawn_ops(self.handles_spec()),
    {
        let mut ops: Vec<RenderOp> = Vec::new();
        let n = self.rendered_handles.len();
        let mut i: usize = 0;
        while i < n
            invariant
                i <= n,
                n == self.handles_spec().len(),
                ops@ == despawn_ops(self.handles_spec().take(i as int)),
            decreases n - i,
        {
            ops.push(RenderOp::Despawn { handle: self.rendered_handles[i] });
            proof {
                assert(ops@ =~= despawn_ops(self.handles_spec().take(i + 1)));
            }
            i = i + 1;
        }
        proof {
            assert(self.handles_spec().take(n as int) =~= self.handles_spec());
        }
        ops
    }

    fn build_spawn_ops(conn: u64, entities: &Vec<DebugEntity>, incremental: bool) -> (ops: Vec<
        RenderOp,
    >)
        ensures
            incremental ==> ops@ == spawn_fresh_ops(conn, entities@),
            !incremental ==> ops@ == spawn_all_ops(conn, entities@),
    {
        let mut ops: Vec<RenderOp> = Vec::new();
        let n = entities.len();
        let mut i: usize = 0;
        while i < n
            invariant
                i <= n,
                n == entities@.len(),
                incremental ==> ops@ == spawn_fresh_ops(conn, entities@.take(i as int)),
                !incremental ==> ops@ == spawn_all_ops(conn, entities@.take(i as int)),
            decreases n - i,
        {
            let e = entities[i];
            proof {
                assert(entities@.take(i + 1).drop_last() =~= entities@.take(i as int));
                assert(entities@.take(i + 1).last() == entities@[i as int]);
            }
            if incremental {
                if e.visual_handle.is_none() {
                    ops.push(RenderOp::Spawn { connection_id: conn, index: i, entity: e });
                }
            } else {
                ops.push(RenderOp::Spawn { connection_id: conn, index: i, entity: e });
                proof {
                    assert(ops@ =~= spawn_all_ops(conn, entities@.take(i + 1)));
                }
            }
            i = i + 1;
        }
        proof {
            assert(entities@.take(n as int) =~= entities@);
        }
        ops
    }

    /// Spawn instructions for the currently selected session: all of its
    /// entities, or — incremental, the refresh path — only those not on
    /// screen yet. No selection, or a stale one, yields no instructions.
    pub fn spawn_current_session(&self, sessions: &Sessions, incremental: bool) -> (ops: Vec<
        RenderOp,
    >)
        requires
            sessions.wf(),
        ensures
            sessions.current_connection_spec() is None ==> ops@ == Seq::<RenderOp>::empty(),
            sessions.current_connection_spec() matches Some(c) ==> {
                &&& incremental ==> ops@ == spawn_fresh_ops(
                    c,
                    sessions.session_spec(c).entities_spec(),
                )
                &&& !incremental ==> ops@ == spawn_all_ops(
                    c,
                    sessions.session_spec(c).entities_spec(),
                )
            },
    {
        match sessions.current_connection() {
            Some(c) => {
                match sessions.get(c) {
                    Some(s) => Self::build_spawn_ops(c, s.entities(), incremental),
                    None => {
                        proof {
                            assert(false);
                        }
                        Vec::new()
                    },
                }
            },
            None => Vec::new(),
        }
    }

    /// Despawn instructions for everything this view has on screen, in spawn
    /// order, and forget the handles: the screen is about to be cleared.
    pub fn despawn_current_session(&mut self) -> (ops: Vec<RenderOp>)
        ensures
            ops@ == despawn_ops(old(self).handles_spec()),
            final(self).handles_spec() == Seq::<u64>::empty(),
            final(self).last_rendered_spec() == old(self).last_rendered_spec(),
    {
        let ops = self.build_despawn_ops();
        self.rendered_handles = Vec::new();
        ops
    }

    /// The render collaborator executed a `Spawn` instruction and obtained
    /// `handle`: remember the handle for later despawning, and write it onto
    /// the spawned entity if its session still exists — it may have been
    /// removed in the meantime, in which case only the view remembers it.
    pub fn record_spawn(
        &mut self,
        sessions: &mut Sessions,
        conn: u64,
        index: usize,
        handle: u64,
    ) -> (recorded: bool)
        requires
            old(sessions).wf(),
        ensures
            final(self).last_rendered_spec() == old(self).last_rendered_spec(),
            final(self).handles_spec() == old(self).handles_spec().push(handle),
            final(sessions).wf(),
            final(sessions).selected_spec() == old(sessions).selected_spec(),
            recorded == (old(sessions).contains_conn(conn) && index < old(sessions).session_spec(
                conn,
            ).entities_spec().len()),
            !recorded ==> *final(sessions) == *old(sessions),
            forall|x: u64| final(sessions).contains_conn(x) <==> old(sessions).contains_conn(x),
            forall|x: u64|
                old(sessions).contains_conn(x) && x != conn ==> final(sessions).session_spec(x)
                    == old(sessions).session_spec(x),
            recorded ==> {
                let pre_s = old(sessions).session_spec(conn);
                let post_s = final(sessions).session_spec(conn);
                &&& post_s.connection_id_spec() == pre_s.connection_id_spec()
                &&& post_s.generation_spec() == pre_s.generation_spec()
                &&& post_s.cleaned_spec() == pre_s.cleaned_spec()
                &&& post_s.entities_spec() == pre_s.entities_spec().update(
                    index as int,
                    pre_s.entities_spec()[index as int].with_handle_spec(handle),
                )
            },
    {
        self.rendered_handles.push(handle);
        sessions.set_visual_handle(conn, index, handle)
    }

    /// One render tick: decide between doing nothing, refreshing the current
    /// session, and swapping to another one, and return the instructions.
    ///
    /// - Selection unchanged and clean (or nothing selected): no
    ///   instructions, nothing changes.
    /// - Selection unchanged but dirty — refresh: spawn instructions for
    ///   exactly the entities not on screen yet, then the session is marked
    ///   consumed.
    /// - Selection changed — swap, including to or from "nothing": first
    ///   despawn instructions for everything on screen, then spawn
    ///   instructions for the whole newly selected batch, which is marked
    ///   consumed; the view now remembers the new selection.
    pub fn tick(&mut self, sessions: &mut Sessions) -> (ops: Vec<RenderOp>)
        requires
            old(sessions).wf(),
        ensures
            final(sessions).wf(),
            old(sessions).current_connection_spec() == old(self).last_rendered_spec() ==> {
                &&& *final(self) == *old(self)
                &&& (old(sessions).current_connection_spec() matches Some(c)
                    && old(sessions).session_spec(c).dirty_spec()) ==> {
                    &&& ops@ == spawn_fresh_ops(
                        old(sessions).current_connection_spec()->0,
                        old(sessions).session_spec(
                            old(sessions).current_connection_spec()->0,
                        ).entities_spec(),
                    )
                    &&& table_cleaned_at(
                        *old(sessions),
                        *final(sessions),
                        old(sessions).current_connection_spec()->0,
                    )
                }
                &&& !(old(sessions).current_connection_spec() matches Some(c)
                    && old(sessions).session_spec(c).dirty_spec()) ==> {
                    &&& ops@ == Seq::<RenderOp>::empty()
                    &&& *final(sessions) == *old(sessions)
                }
            },
            old(sessions).current_connection_spec() != old(self).last_rendered_spec() ==> {
                &&& final(self).last_rendered_spec() == old(sessions).current_connection_spec()
                &&& final(self).handles_spec() == Seq::<u64>::empty()
                &&& old(sessions).current_connection_spec() is None ==> {
                    &&& ops@ == despawn_ops(old(self).handles_spec())
                    &&& *final(sessions) == *old(sessions)
                }
                &&& old(sessions).current_connection_spec() matches Some(c) ==> {
                    &&& ops@ == despawn_ops(old(self).handles_spec()) + spawn_all_ops(
                        c,
                        old(sessions).session_spec(c).entities_spec(),
                    )
                    &&& table_cleaned_at(*old(sessions), *final(sessions), c)
                }
            },
    {
        let current = sessions.current_connection();
        if opt_eq(current, self.last_rendered) {
            match current {
                Some(c) => {
                    match sessions.get(c) {
                        Some(s) => {
                            if s.is_dirty() {
                                let g = s.generation();
                                let ops = Self::build_spawn_ops(c, s.entities(), true);
                                sessions.clean_session(c, g);
                                ops
                            } else {
                                Vec::new()
                            }
                        },
                        None => {
                            proof {
                                assert(false);
                            }
                            Vec::new()
                        },
                    }
                },
                None => Vec::new(),
            }
        } else {
            let mut ops = self.build_despawn_ops();
            self.rendered_handles = Vec::new();
            self.last_rendered = current;
            match current {
                Some(c) => {
                    match sessions.get(c) {
                        Some(s) => {
                            let g = s.generation();
                            let mut spawns = Self::build_spawn_ops(c, s.entities(), false);
                            ops.append(&mut spawns);
                            sessions.clean_session(c, g);
                        },
                        None => {
                            proof {
                                assert(false);
                            }
                        },
                    }
                },
                None => {},
            }
            ops
        }
    }
}

impl Default for SessionsState {
    /// A view that has rendered nothing yet.
    fn default() -> (r: SessionsState)
        ensures
            r.last_rendered_spec() is None,
            r.handles_spec() == Seq::<u64>::empty(),
    {
        SessionsState::new()
    }
}

/// Equality of two optional connection ids.
fn opt_eq(a: Option<u64>, b: Option<u64>) -> (r: bool)
    ensures
        r == (a == b),
{
    match (a, b) {
        (None, None) => true,
        (Some(x), Some(y)) => x == y,
        _ => false,
    }
}

} // verus!
