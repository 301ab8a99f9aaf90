//! The session table: one session per live producer connection, plus the
//! soft "current" selection.
//!
//! The selection is a connection id, never a reference: removing a session
//! silently invalidates the selection, and resolving a stale selection is a
//! normal, checked outcome (absent), not a fault. The policy implemented here
//! is most-recently-connected: accepting a connection selects it.

use vstd::prelude::*;

use crate::entity::DebugEntity;
use crate::registry::EntityRegistry;
use crate::session::{session_cleaned, session_pushed, Session};

verus! {

pub struct Sessions {
    sessions: Vec<Session>,
    selected: Option<u64>,
}

impl Sessions {
    /// The stored sessions, in insertion order. The order carries no meaning;
    /// the table is a map keyed by connection id.
    pub closed spec fn rows(self) -> Seq<Session> {
        self.sessions@
    }

    /// The connection id the selection policy currently points at, if any.
    pub closed spec fn selected_spec(self) -> Option<u64> {
        self.selected
    }

    /// No two rows share a connection id.
    pub open spec fn distinct_conns(self) -> bool {
        forall|i: int, j: int|
            0 <= i < j < self.rows().len() ==> self.rows()[i].connection_id_spec()
                != self.rows()[j].connection_id_spec()
    }

    pub open spec fn wf(self) -> bool {
        &&& self.distinct_conns()
        &&& forall|i: int| 0 <= i < self.rows().len() ==> (#[trigger] self.rows()[i]).wf()
    }

    pub open spec fn contains_conn(self, c: u64) -> bool {
        exists|i: int| 0 <= i < self.rows().len() && (#[trigger] self.rows()[i]).connection_id_spec() == c
    }

    /// The row index of connection `c`; meaningful only when `contains_conn`.
    pub open spec fn idx_of(self, c: u64) -> int {
        choose|i: int| 0 <= i < self.rows().len() && (#[trigger] self.rows()[i]).connection_id_spec() == c
    }

    /// The session of connection `c`; meaningful only when `contains_conn`.
    pub open spec fn session_spec(self, c: u64) -> Session {
        self.rows()[self.idx_of(c)]
    }

    /// The selection, resolved against the table: the selected connection if
    /// it still has a session, absent otherwise (none selected, or stale).
    pub open spec fn current_connection_spec(self) -> Option<u64> {
        match self.selected_spec() {
            Some(c) => if self.contains_conn(c) {
                Some(c)
            } else {
                None
            },
            None => None,
        }
    }

    /// A row whose connection id is `c` is *the* row of `c`.
    proof fn lemma_idx_at(self, c: u64, i: int)
        requires
            self.wf(),
            0 <= i < self.rows().len(),
            self.rows()[i].connection_id_spec() == c,
        ensures
            self.contains_conn(c),
            self.idx_of(c) == i,
            self.session_spec(c) == self.rows()[i],
    {
        assert(self.contains_conn(c));
        let k = self.idx_of(c);
        assert(0 <= k < self.rows().len() && self.rows()[k].connection_id_spec() == c);
        if k < i {
            assert(self.rows()[k].connection_id_spec() != self.rows()[i].connection_id_spec());
        } else if i < k {
            assert(self.rows()[i].connection_id_spec() != self.rows()[k].connection_id_spec());
        }
    }

    /// Replacing one row by another of the same connection id leaves every
    /// other session, membership and the selection as they were.
    proof fn lemma_rows_replaced(pre: Sessions, post: Sessions, i: int)
        requires
            pre.wf(),
            0 <= i < pre.rows().len(),
            post.rows().len() == pre.rows().len(),
            forall|j: int| 0 <= j < pre.rows().len() && j != i ==> post.rows()[j] == pre.rows()[j],
            post.rows()[i].connection_id_spec() == pre.rows()[i].connection_id_spec(),
            post.rows()[i].wf(),
            post.selected_spec() == pre.selected_spec(),
        ensures
            post.wf(),
            forall|x: u64| post.contains_conn(x) <==> pre.contains_conn(x),
            forall|x: u64|
                pre.contains_conn(x) && x != pre.rows()[i].connection_id_spec()
                    ==> post.session_spec(x) == pre.session_spec(x),
            post.session_spec(pre.rows()[i].connection_id_spec()) == post.rows()[i],
            pre.session_spec(pre.rows()[i].connection_id_spec()) == pre.rows()[i],
    {
        let c = pre.rows()[i].connection_id_spec();
        assert forall|j: int| 0 <= j < post.rows().len() implies (#[trigger] post.rows()[j]).connection_id_spec()
            == pre.rows()[j].connection_id_spec() by {}
        assert forall|j: int| 0 <= j < post.rows().len() implies (#[trigger] post.rows()[j]).wf() by {
            if j != i {
                assert(pre.rows()[j].wf());
            }
        }
        assert forall|x: u64| post.contains_conn(x) <==> pre.contains_conn(x) by {
            if post.contains_conn(x) {
                let j = choose|j: int|
                    0 <= j < post.rows().len() && (#[trigger] post.rows()[j]).connection_id_spec() == x;
                assert(pre.rows()[j].connection_id_spec() == x);
            }
            if pre.contains_conn(x) {
                let j = choose|j: int|
                    0 <= j < pre.rows().len() && (#[trigger] pre.rows()[j]).connection_id_spec() == x;
                assert(post.rows()[j].connection_id_spec() == x);
            }
        }
        assert forall|x: u64|
            pre.contains_conn(x) && x != c implies post.session_spec(x) == pre.session_spec(x) by {
            let j = choose|j: int|
                0 <= j < pre.rows().len() && (#[trigger] pre.rows()[j]).connection_id_spec() == x;
            pre.lemma_idx_at(x, j);
            if j == i {
                assert(false);
            }
            post.lemma_idx_at(x, j);
        }
        post.lemma_idx_at(c, i);
        pre.lemma_idx_at(c, i);
    }

    /// Appending a row with a fresh connection id keeps every existing
    /// session and adds exactly one membership.
    proof fn lemma_rows_pushed(pre: Sessions, post: Sessions, s: Session)
        requires
            pre.wf(),
            s.wf(),
            !pre.contains_conn(s.connection_id_spec()),
            post.rows() == pre.rows().push(s),
            post.selected_spec() == pre.selected_spec(),
        ensures
            post.wf(),
            forall|x: u64|
                post.contains_conn(x) <==> (pre.contains_conn(x) || x == s.connection_id_spec()),
            forall|x: u64|
                pre.contains_conn(x) && x != s.connection_id_spec()
                    ==> post.session_spec(x) == pre.session_spec(x),
            post.session_spec(s.connection_id_spec()) == s,
    {
        let c = s.connection_id_spec();
        let n = pre.rows().len() as int;
        assert forall|j: int| 0 <= j < n implies (#[trigger] pre.rows()[j]).connection_id_spec() != c by {
            if pre.rows()[j].connection_id_spec() == c {
                assert(pre.contains_conn(c));
            }
        }
        assert forall|i: int, j: int|
            0 <= i < j < post.rows().len() implies post.rows()[i].connection_id_spec()
            != post.rows()[j].connection_id_spec() by {
            if j < n {
                assert(pre.rows()[i].connection_id_spec() != pre.rows()[j].connection_id_spec());
            } else {
                assert(post.rows()[j] == s);
                assert(pre.rows()[i].connection_id_spec() != c);
            }
        }
        assert forall|j: int| 0 <= j < post.rows().len() implies (#[trigger] post.rows()[j]).wf() by {
            if j < n {
                assert(pre.rows()[j].wf());
            }
        }
        assert forall|x: u64|
            post.contains_conn(x) <==> (pre.contains_conn(x) || x == c) by {
            if post.contains_conn(x) {
                let j = choose|j: int|
                    0 <= j < post.rows().len() && (#[trigger] post.rows()[j]).connection_id_spec() == x;
                if j < n {
                    assert(pre.rows()[j].connection_id_spec() == x);
                }
            }
            if pre.contains_conn(x) {
                let j = choose|j: int|
                    0 <= j < pre.rows().len() && (#[trigger] pre.rows()[j]).connection_id_spec() == x;
                assert(post.rows()[j].connection_id_spec() == x);
            }
            if x == c {
                assert(post.rows()[n].connection_id_spec() == x);
            }
        }
        assert forall|x: u64|
            pre.contains_conn(x) && x != c implies post.session_spec(x) == pre.session_spec(x) by {
            let j = choose|j: int|
                0 <= j < pre.rows().len() && (#[trigger] pre.rows()[j]).connection_id_spec() == x;
            pre.lemma_idx_at(x, j);
            post.lemma_idx_at(x, j);
        }
        post.lemma_idx_at(c, n);
    }

    /// Removing the row of `c` keeps every other session and drops exactly
    /// one membership.
    proof fn lemma_rows_removed(pre: Sessions, post: Sessions, i: int)
        requires
            pre.wf(),
            0 <= i < pre.rows().len(),
            post.rows() == pre.rows().remove(i),
            post.selected_spec() == pre.selected_spec(),
        ensures
            post.wf(),
            forall|x: u64|
                post.contains_conn(x) <==> (pre.contains_conn(x) && x
                    != pre.rows()[i].connection_id_spec()),
            forall|x: u64|
                pre.contains_conn(x) && x != pre.rows()[i].connection_id_spec()
                    ==> post.session_spec(x) == pre.session_spec(x),
    {
        let c = pre.rows()[i].connection_id_spec();
        assert forall|j: int, k: int|
            0 <= j < k < post.rows().len() implies post.rows()[j].connection_id_spec()
            != post.rows()[k].connection_id_spec() by {
            let j0 = if j < i { j } else { j + 1 };
            let k0 = if k < i { k } else { k + 1 };
            assert(post.rows()[j] == pre.rows()[j0]);
            assert(post.rows()[k] == pre.rows()[k0]);
            assert(pre.rows()[j0].connection_id_spec() != pre.rows()[k0].connection_id_spec());
        }
        assert forall|j: int| 0 <= j < post.rows().len() implies (#[trigger] post.rows()[j]).wf() by {
            let j0 = if j < i { j } else { j + 1 };
            assert(post.rows()[j] == pre.rows()[j0]);
            assert(pre.rows()[j0].wf());
        }
        assert forall|x: u64|
            post.contains_conn(x) <==> (pre.contains_conn(x) && x != c) by {
            if post.contains_conn(x) {
                let j = choose|j: int|
                    0 <= j < post.rows().len() && (#[trigger] post.rows()[j]).connection_id_spec() == x;
                let j0 = if j < i { j } else { j + 1 };
                assert(pre.rows()[j0].connection_id_spec() == x);
                pre.lemma_idx_at(x, j0);
                if x == c {
                    pre.lemma_idx_at(c, i);
                }
            }
            if pre.contains_conn(x) && x != c {
                let j = choose|j: int|
                    0 <= j < pre.rows().len() && (#[trigger] pre.rows()[j]).connection_id_spec() == x;
                if j < i {
                    assert(post.rows()[j].connection_id_spec() == x);
                } else {
                    assert(j != i);
                    assert(post.rows()[j - 1].connection_id_spec() == x);
                }
            }
        }
        assert forall|x: u64|
            pre.contains_conn(x) && x != c implies post.session_spec(x) == pre.session_spec(x) by {
            let j = choose|j: int|
                0 <= j < pre.rows().len() && (#[trigger] pre.rows()[j]).connection_id_spec() == x;
            pre.lemma_idx_at(x, j);
            if j < i {
                assert(post.rows()[j].connection_id_spec() == x);
                post.lemma_idx_at(x, j);
            } else {
                assert(j != i);
                assert(post.rows()[j - 1].connection_id_spec() == x);
                post.lemma_idx_at(x, j - 1);
            }
        }
    }

    /// An empty table with nothing selected.
    pub fn new() -> (r: Sessions)
        ensures
            r.wf(),
            r.rows() == Seq::<Session>::empty(),
            r.selected_spec() is None,
            forall|x: u64| !r.contains_conn(x),
    {
        Sessions { sessions: Vec::new(), selected: None }
    }

    pub fn len(&self) -> (r: usize)
        ensures
            r == self.rows().len(),
    {
        self.sessions.len()
    }

    /// The row index of `conn`, if the connection has a session.
    fn find_index(&self, conn: u64) -> (r: Option<usize>)
        requires
            self.wf(),
        ensures
            match r {
                Some(i) => i < self.rows().len() && self.rows()[i as int].connection_id_spec()
                    == conn && self.contains_conn(conn) && i as int == self.idx_of(conn),
                None => !self.contains_conn(conn),
            },
    {
        let n = self.sessions.len();
        let mut i: usize = 0;
        while i < n
            invariant
                self.wf(),
                n == self.rows().len(),
                i <= n,
                forall|j: int| 0 <= j < i ==> (#[trigger] self.rows()[j]).connection_id_spec() != conn,
            decreases n - i,
        {
            if self.sessions[i].id() == conn {
                proof {
                    self.lemma_idx_at(conn, i as int);
                }
                return Some(i);
            }
            i = i + 1;
        }
        None
    }

    pub fn contains(&self, conn: u64) -> (r: bool)
        requires
            self.wf(),
        ensures
            r == self.contains_conn(conn),
    {
        self.find_index(conn).is_some()
    }

    /// The session of `conn`, read-only; absent if the connection is unknown.
    pub fn get(&self, conn: u64) -> (r: Option<&Session>)
        requires
            self.wf(),
        ensures
            match r {
                Some(s) => self.contains_conn(conn) && *s == self.session_spec(conn),
                None => !self.contains_conn(conn),
            },
    {
        match self.find_index(conn) {
            Some(i) => Some(&self.sessions[i]),
            None => None,
        }
    }

    /// The session of `conn`, for mutation; absent if the connection is
    /// unknown, which is no error — messages for unknown connections are
    /// dropped. The caller sees the whole table through the returned
    /// borrow: afterwards exactly that row holds whatever the caller left
    /// behind.
    pub fn get_mut(&mut self, conn: u64) -> (r: Option<&mut Session>)
        requires
            old(self).wf(),
        ensures
            match r {
                Some(s) => {
                    &&& old(self).contains_conn(conn)
                    &&& *s == old(self).session_spec(conn)
                    &&& final(self).rows() == old(self).rows().update(
                        old(self).idx_of(conn),
                        *final(s),
                    )
                    &&& final(self).selected_spec() == old(self).selected_spec()
                },
                None => {
                    &&& !old(self).contains_conn(conn)
                    &&& *final(self) == *old(self)
                },
            },
    {
        match self.find_index(conn) {
            Some(i) => Some(&mut self.sessions[i]),
            None => None,
        }
    }

    /// The currently selected session, for mutation; absent if nothing is
    /// selected or the selection went stale.
    pub fn current_session_mut(&mut self) -> (r: Option<&mut Session>)
        requires
            old(self).wf(),
        ensures
            match r {
                Some(s) => {
                    &&& old(self).current_connection_spec() is Some
                    &&& *s == old(self).session_spec(old(self).current_connection_spec()->0)
                    &&& final(self).rows() == old(self).rows().update(
                        old(self).idx_of(old(self).current_connection_spec()->0),
                        *final(s),
                    )
                    &&& final(self).selected_spec() == old(self).selected_spec()
                },
                None => {
                    &&& old(self).current_connection_spec() is None
                    &&& *final(self) == *old(self)
                },
            },
    {
        match self.selected {
            Some(c) => self.get_mut(c),
            None => None,
        }
    }

    /// Register a session under its connection id. A session for the same
    /// connection is replaced outright: a reconnect replaces, it does not
    /// merge.
    pub fn insert(&mut self, session: Session)
        requires
            old(self).wf(),
            session.wf(),
        ensures
            final(self).wf(),
            final(self).selected_spec() == old(self).selected_spec(),
            forall|x: u64|
                final(self).contains_conn(x) <==> (old(self).contains_conn(x) || x
                    == session.connection_id_spec()),
            forall|x: u64|
                old(self).contains_conn(x) && x != session.connection_id_spec()
                    ==> final(self).session_spec(x) == old(self).session_spec(x),
            final(self).session_spec(session.connection_id_spec()) == session,
    {
        let ghost pre = *self;
        match self.find_index(session.id()) {
            Some(i) => {
                let slot = &mut self.sessions[i];
                *slot = session;
                proof {
                    Sessions::lemma_rows_replaced(pre, *self, i as int);
                }
            },
            None => {
                self.sessions.push(session);
                proof {
                    Sessions::lemma_rows_pushed(pre, *self, session);
                }
            },
        }
    }

    /// Drop the session of `conn`, if any. The selection is left alone: a
    /// stale selection resolves to absent.
    pub fn remove(&mut self, conn: u64)
        requires
            old(self).wf(),
        ensures
            final(self).wf(),
            final(self).selected_spec() == old(self).selected_spec(),
            forall|x: u64|
                final(self).contains_conn(x) <==> (old(self).contains_conn(x) && x != conn),
            forall|x: u64|
                old(self).contains_conn(x) && x != conn ==> final(self).session_spec(x) == old(
                    self,
                ).session_spec(x),
    {
        let ghost pre = *self;
        match self.find_index(conn) {
            Some(i) => {
                self.sessions.remove(i);
                proof {
                    Sessions::lemma_rows_removed(pre, *self, i as int);
                }
            },
            None => {},
        }
    }

    /// Point the selection policy at `sel` (or at nothing).
    pub fn select(&mut self, sel: Option<u64>)
        ensures
            final(self).rows() == old(self).rows(),
            final(self).selected_spec() == sel,
            old(self).wf() ==> final(self).wf(),
            forall|x: u64| final(self).contains_conn(x) == old(self).contains_conn(x),
            forall|x: u64| final(self).session_spec(x) == old(self).session_spec(x),
    {
        self.selected = sel;
    }

    pub fn selected(&self) -> (r: Option<u64>)
        ensures
            r == self.selected_spec(),
    {
        self.selected
    }

    /// The resolved selection: the selected connection id if its session is
    /// still in the table, absent otherwise.
    pub fn current_connection(&self) -> (r: Option<u64>)
        requires
            self.wf(),
        ensures
            r == self.current_connection_spec(),
    {
        match self.selected {
            Some(c) => {
                if self.contains(c) {
                    Some(c)
                } else {
                    None
                }
            },
            None => None,
        }
    }

    /// The currently selected session, read-only; absent if nothing is
    /// selected or the selection went stale.
    pub fn current_session(&self) -> (r: Option<&Session>)
        requires
            self.wf(),
        ensures
            match r {
                Some(s) => self.current_connection_spec() is Some && *s == self.session_spec(
                    self.current_connection_spec()->0,
                ),
                None => self.current_connection_spec() is None,
            },
    {
        match self.selected {
            Some(c) => self.get(c),
            None => None,
        }
    }

    /// A connection was accepted: give it an empty session and — the
    /// selection policy of this viewer — make it current.
    pub fn handle_connect(&mut self, conn: u64)
        requires
            old(self).wf(),
        ensures
            final(self).wf(),
            final(self).selected_spec() == Some(conn),
            forall|x: u64|
                final(self).contains_conn(x) <==> (old(self).contains_conn(x) || x == conn),
            forall|x: u64|
                old(self).contains_conn(x) && x != conn ==> final(self).session_spec(x) == old(
                    self,
                ).session_spec(x),
            final(self).session_spec(conn).connection_id_spec() == conn,
            final(self).session_spec(conn).entities_spec() == Seq::<DebugEntity>::empty(),
            !final(self).session_spec(conn).dirty_spec(),
            final(self).session_spec(conn).generation_spec() == 0,
            final(self).current_connection_spec() == Some(conn),
    {
        let s = Session::new(conn);
        self.insert(s);
        self.select(Some(conn));
    }

    /// A framed message arrived on `conn`: assign the entity an identity and
    /// append it to the connection's session. A message for an unknown
    /// connection is dropped silently — the producer may have disconnected
    /// mid-flight — and then neither the table nor the registry changes.
    pub fn handle_message(
        &mut self,
        registry: &mut EntityRegistry,
        conn: u64,
        entity: DebugEntity,
    ) -> (delivered: bool)
        requires
            old(self).wf(),
            old(registry).next_id() < u64::MAX,
            old(self).contains_conn(conn) ==> old(self).session_spec(conn).generation_spec()
                < u64::MAX,
        ensures
            final(self).wf(),
            delivered == old(self).contains_conn(conn),
            !delivered ==> *final(self) == *old(self) && *final(registry) == *old(registry),
            delivered ==> {
                &&& entity.id is Some ==> *final(registry) == *old(registry)
                &&& entity.id is None ==> crate::registry::fresh_assign(
                    *old(registry),
                    *final(registry),
                    old(registry).next_id(),
                )
                &&& final(self).selected_spec() == old(self).selected_spec()
                &&& forall|x: u64| final(self).contains_conn(x) <==> old(self).contains_conn(x)
                &&& forall|x: u64|
                    old(self).contains_conn(x) && x != conn ==> final(self).session_spec(x) == old(
                        self,
                    ).session_spec(x)
                &&& session_pushed(
                    old(self).session_spec(conn),
                    final(self).session_spec(conn),
                    old(registry).assigned_entity(entity),
                )
                &&& final(self).session_spec(conn).dirty_spec()
            },
    {
        let ghost pre = *self;
        match self.find_index(conn) {
            Some(i) => {
                let mut e = entity;
                registry.assign_id(&mut e);
                let slot = &mut self.sessions[i];
                slot.push(e);
                proof {
                    Sessions::lemma_rows_replaced(pre, *self, i as int);
                }
                true
            },
            None => false,
        }
    }

    /// Report generation `observed` of `conn`'s session as consumed (see
    /// `Session::clean`). Unknown connections are ignored.
    pub fn clean_session(&mut self, conn: u64, observed: u64)
        requires
            old(self).wf(),
            old(self).contains_conn(conn) ==> observed <= old(self).session_spec(
                conn,
            ).generation_spec(),
        ensures
            final(self).wf(),
            final(self).selected_spec() == old(self).selected_spec(),
            forall|x: u64| final(self).contains_conn(x) <==> old(self).contains_conn(x),
            forall|x: u64|
                old(self).contains_conn(x) && x != conn ==> final(self).session_spec(x) == old(
                    self,
                ).session_spec(x),
            !old(self).contains_conn(conn) ==> *final(self) == *old(self),
            old(self).contains_conn(conn) ==> session_cleaned(
                old(self).session_spec(conn),
                final(self).session_spec(conn),
                observed,
            ),
    {
        let ghost pre = *self;
        match self.find_index(conn) {
            Some(i) => {
                let slot = &mut self.sessions[i];
                slot.clean(observed);
                proof {
                    Sessions::lemma_rows_replaced(pre, *self, i as int);
                }
            },
            None => {},
        }
    }

    /// Record the visual handle of the entity at `index` of `conn`'s session
    /// (see `Session::set_visual_handle`). Recording for a connection or
    /// index that is gone does nothing: the session may have been removed
    /// between the spawn instruction and its confirmation.
    pub fn set_visual_handle(&mut self, conn: u64, index: usize, handle: u64) -> (recorded: bool)
        requires
            old(self).wf(),
        ensures
            final(self).wf(),
            final(self).selected_spec() == old(self).selected_spec(),
            recorded == (old(self).contains_conn(conn) && index < old(self).session_spec(
                conn,
            ).entities_spec().len()),
            !recorded ==> *final(self) == *old(self),
            forall|x: u64| final(self).contains_conn(x) <==> old(self).contains_conn(x),
            forall|x: u64|
                old(self).contains_conn(x) && x != conn ==> final(self).session_spec(x) == old(
                    self,
                ).session_spec(x),
            recorded ==> {
                let pre_s = old(self).session_spec(conn);
                let post_s = final(self).session_spec(conn);
                &&& post_s.connection_id_spec() == pre_s.connection_id_spec()
                &&& post_s.generation_spec() == pre_s.generation_spec()
                &&& post_s.cleaned_spec() == pre_s.cleaned_spec()
                &&& post_s.entities_spec() == pre_s.entities_spec().update(
                    index as int,
                    pre_s.entities_spec()[index as int].with_handle_spec(handle),
                )
            },
    {
        let ghost pre = *self;
        match self.find_index(conn) {
            Some(i) => {
                let n = self.sessions[i].len();
                if index < n {
                    let slot = &mut self.sessions[i];
                    slot.set_visual_handle(index, handle);
                    proof {
                        Sessions::lemma_rows_replaced(pre, *self, i as int);
                    }
                    true
                } else {
                    false
                }
            },
            None => false,
        }
    }
}

impl Default for Sessions {
    /// An empty table with nothing selected.
    fn default() -> (r: Sessions)
        ensures
            r.wf(),
            r.rows() == Seq::<Session>::empty(),
            r.selected_spec() is None,
    {
        Sessions::new()
    }
}

} // verus!
