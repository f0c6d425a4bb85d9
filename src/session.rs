//! Bookkeeping of transactional workspace sessions: each session is open
//! from `begin` until it is committed or abandoned, and terminal after.

use vstd::prelude::*;
use crate::table::NamedTable;
use crate::types::random_uuid_text;
use vstd::string::StringExecFns;

verus! {

#[derive(Debug, Clone, Copy, PartialEq, Eq, Structural)]
pub enum SessionState {
    Open,
    Committed,
    Abandoned,
}

/// A session: the resource-tree path it is rooted at, and its state.
pub struct SessionRecord {
    pub base_path: String,
    pub state: SessionState,
}

/// Caller errors of the session lifecycle; none is fatal to the kernel.
#[derive(Debug, Clone, PartialEq)]
pub enum SessionError {
    /// The id was never issued, or its session is already terminal.
    UnknownSession(String),
    /// The base path cannot root a session.
    InvalidBasePath(String),
    /// The id offered for a new session is already issued.
    IdInUse(String),
}

/// What is known of a session: its base path and state.
pub type SessionView = (Seq<char>, SessionState);

/// A base path can root a session when it is not empty.
pub open spec fn valid_base_path(p: Seq<char>) -> bool {
    p.len() > 0
}

/// The sessions after opening `id` at `base` in `m`.
pub open spec fn begin_spec(m: Map<Seq<char>, SessionView>, id: Seq<char>, base: Seq<char>) -> Option<Map<Seq<char>, SessionView>> {
    if valid_base_path(base) && !m.contains_key(id) {
        Some(m.insert(id, (base, SessionState::Open)))
    } else {
        None
    }
}

/// The sessions after moving open session `id` of `m` to `to`; `None` when
/// `id` names no open session.
pub open spec fn finish_spec(m: Map<Seq<char>, SessionView>, id: Seq<char>, to: SessionState) -> Option<Map<Seq<char>, SessionView>> {
    if m.contains_key(id) && m[id].1 == SessionState::Open {
        Some(m.insert(id, (m[id].0, to)))
    } else {
        None
    }
}

/// A write staged by a session: the session's id, the full path in the
/// resource tree, and the content.
pub struct StagedWrite {
    pub session: String,
    pub path: String,
    pub content: String,
}

/// A staged write as text: session id, full path, content.
pub type WriteView = (Seq<char>, Seq<char>, Seq<char>);

pub open spec fn write_view(w: StagedWrite) -> WriteView {
    (w.session@, w.path@, w.content@)
}

pub open spec fn writes_view(ws: Seq<StagedWrite>) -> Seq<WriteView> {
    ws.map_values(|w: StagedWrite| write_view(w))
}

/// `path` inside the session rooted at `base`.
pub open spec fn session_path(base: Seq<char>, path: Seq<char>) -> Seq<char> {
    base + seq!['/'] + path
}

/// The resource tree after applying, in order, the writes of session `id`
/// among `ws` to `tree`.
pub open spec fn apply_writes(tree: Map<Seq<char>, Seq<char>>, ws: Seq<WriteView>, id: Seq<char>) -> Map<Seq<char>, Seq<char>>
    decreases ws.len(),
{
    if ws.len() == 0 {
        tree
    } else {
        let prev = apply_writes(tree, ws.drop_last(), id);
        let w = ws.last();
        if w.0 == id {
            prev.insert(w.1, w.2)
        } else {
            prev
        }
    }
}

/// The writes of `ws` that belong to sessions other than `id`, in order.
pub open spec fn others(ws: Seq<WriteView>, id: Seq<char>) -> Seq<WriteView>
    decreases ws.len(),
{
    if ws.len() == 0 {
        ws
    } else {
        let prev = others(ws.drop_last(), id);
        if ws.last().0 != id {
            prev.push(ws.last())
        } else {
            prev
        }
    }
}

/// All sessions ever issued, keyed by id; the writes staged by open
/// sessions; and the resource tree that committed writes went to.
pub struct SessionManager {
    sessions: NamedTable<SessionRecord>,
    staged: Vec<StagedWrite>,
    tree: NamedTable<String>,
}

impl SessionManager {
    /// Every staged write belongs to an open session.
    pub closed spec fn wf(&self) -> bool {
        &&& self.sessions.wf()
        &&& self.tree.wf()
        &&& forall|i: int|
            0 <= i < self.staged@.len() ==> {
                let k = (#[trigger] self.staged@[i]).session@;
                self.sessions@.contains_key(k) && self.sessions@[k].state == SessionState::Open
            }
    }

    pub closed spec fn view(&self) -> Map<Seq<char>, SessionView> {
        self.sessions@.map_values(|r: SessionRecord| (r.base_path@, r.state))
    }

    /// The staged writes, oldest first.
    pub closed spec fn staged(&self) -> Seq<WriteView> {
        writes_view(self.staged@)
    }

    /// The resource tree: content by full path.
    pub closed spec fn tree(&self) -> Map<Seq<char>, Seq<char>> {
        self.tree@.map_values(|s: String| s@)
    }

    pub fn new() -> (r: SessionManager)
        ensures
            r.wf(),
            r@ == Map::<Seq<char>, SessionView>::empty(),
            r.staged() == Seq::<WriteView>::empty(),
            r.tree() == Map::<Seq<char>, Seq<char>>::empty(),
    {
        let r = SessionManager { sessions: NamedTable::new(), staged: Vec::new(), tree: NamedTable::new() };
        assert(r@ =~= Map::<Seq<char>, SessionView>::empty());
        assert(r.staged() =~= Seq::<WriteView>::empty());
        assert(r.tree() =~= Map::<Seq<char>, Seq<char>>::empty());
        r
    }

    /// Opens a session with the id `id`, rooted at `base_path`.
    pub fn begin_session_with_id(&mut self, base_path: String, id: String) -> (r: Result<String, SessionError>)
        requires
            old(self).wf(),
        ensures
            final(self).wf(),
            final(self).staged() == old(self).staged(),
            final(self).tree() == old(self).tree(),
            match begin_spec(old(self)@, id@, base_path@) {
                Some(m) => r matches Ok(s) && s@ == id@ && final(self)@ == m,
                None => final(self)@ == old(self)@ && if !valid_base_path(base_path@) {
                    r matches Err(SessionError::InvalidBasePath(p)) && p@ == base_path@
                } else {
                    r matches Err(SessionError::IdInUse(s)) && s@ == id@
                },
            },
    {
        if base_path.as_str().is_empty() {
            return Err(SessionError::InvalidBasePath(base_path));
        }
        if self.sessions.contains(id.as_str()) {
            return Err(SessionError::IdInUse(id));
        }
        let ghost key = id@;
        let returned = id.clone();
        self.sessions.insert(id, SessionRecord { base_path, state: SessionState::Open });
        proof {
            assert(self@ =~= old(self)@.insert(key, (base_path@, SessionState::Open)));
            assert forall|i: int| 0 <= i < self.staged@.len() implies {
                let k = (#[trigger] self.staged@[i]).session@;
                self.sessions@.contains_key(k) && self.sessions@[k].state == SessionState::Open
            } by {
                let k = self.staged@[i].session@;
                assert(old(self).sessions@.contains_key(k));
            }
        }
        Ok(returned)
    }

    /// Opens a session rooted at `base_path` under a fresh random id. It
    /// fails when the base path is invalid, or in the unlikely case that the
    /// random id is already issued.
    pub fn begin_session(&mut self, base_path: String) -> (r: Result<String, SessionError>)
        requires
            old(self).wf(),
        ensures
            final(self).wf(),
            final(self).staged() == old(self).staged(),
            final(self).tree() == old(self).tree(),
            match r {
                Ok(id) => begin_spec(old(self)@, id@, base_path@) == Some(final(self)@),
                Err(SessionError::IdInUse(id)) => valid_base_path(base_path@)
                    && old(self)@.contains_key(id@) && final(self)@ == old(self)@,
                Err(e) => !valid_base_path(base_path@) && final(self)@ == old(self)@
                    && (e matches SessionError::InvalidBasePath(p) && p@ == base_path@),
            },
    {
        let id = random_uuid_text();
        self.begin_session_with_id(base_path, id)
    }

    /// Stages a write of `content` at `path` inside open session `id`; it is
    /// invisible in the tree until the session commits.
    pub fn stage_write(&mut self, session_id: &str, path: &str, content: String) -> (r: Result<(), SessionError>)
        requires
            old(self).wf(),
        ensures
            final(self).wf(),
            final(self)@ == old(self)@,
            final(self).tree() == old(self).tree(),
            if old(self)@.contains_key(session_id@) && old(self)@[session_id@].1 == SessionState::Open {
                r is Ok && final(self).staged() == old(self).staged().push(
                    (session_id@, session_path(old(self)@[session_id@].0, path@), content@),
                )
            } else {
                final(self).staged() == old(self).staged() && (r matches Err(
                    SessionError::UnknownSession(s),
                ) && s@ == session_id@)
            },
    {
        let full = match self.sessions.get(session_id) {
            Some(rec) => {
                if rec.state != SessionState::Open {
                    return Err(SessionError::UnknownSession(session_id.to_owned()));
                }
                proof {
                    reveal_strlit("/");
                    assert(old(self)@[session_id@] == (rec.base_path@, rec.state));
                }
                let b = rec.base_path.clone();
                let full = b.concat("/").concat(path);
                assert(full@ == session_path(old(self)@[session_id@].0, path@));
                full
            },
            None => {
                return Err(SessionError::UnknownSession(session_id.to_owned()));
            },
        };
        let w = StagedWrite { session: session_id.to_owned(), path: full, content };
        self.staged.push(w);
        proof {
            assert(self.staged() =~= old(self).staged().push(write_view(w)));
        }
        Ok(())
    }

    /// Ends open session `id` in state `to`. Its staged writes leave the
    /// staging area; on commit they are applied to the tree in order.
    fn finish(&mut self, id: String, to: SessionState) -> (r: Result<(), SessionError>)
        requires
            old(self).wf(),
            to != SessionState::Open,
        ensures
            final(self).wf(),
            match finish_spec(old(self)@, id@, to) {
                Some(m) => r is Ok && final(self)@ == m && final(self).staged() == others(
                    old(self).staged(),
                    id@,
                ) && final(self).tree() == if to == SessionState::Committed {
                    apply_writes(old(self).tree(), old(self).staged(), id@)
                } else {
                    old(self).tree()
                },
                None => final(self)@ == old(self)@ && final(self).staged() == old(self).staged()
                    && final(self).tree() == old(self).tree() && (r matches Err(
                    SessionError::UnknownSession(s),
                ) && s@ == id@),
            },
    {
        let base = match self.sessions.get(id.as_str()) {
            Some(rec) => {
                if rec.state != SessionState::Open {
                    return Err(SessionError::UnknownSession(id));
                }
                rec.base_path.clone()
            },
            None => {
                return Err(SessionError::UnknownSession(id));
            },
        };
        let ghost s0 = self.staged();
        let ghost t0 = self.tree();
        let commit = to == SessionState::Committed;
        let mut kept: Vec<StagedWrite> = Vec::new();
        let n = self.staged.len();
        let mut i: usize = 0;
        while i < n
            invariant
                n == self.staged@.len(),
                i <= n,
                old(self).wf(),
                self.staged() == s0,
                self.sessions == old(self).sessions,
                self.staged == old(self).staged,
                self.tree.wf(),
                self.tree() == if commit {
                    apply_writes(t0, s0.take(i as int), id@)
                } else {
                    t0
                },
                writes_view(kept@) == others(s0.take(i as int), id@),
                forall|j: int|
                    0 <= j < kept@.len() ==> {
                        let k = (#[trigger] kept@[j]).session@;
                        k != id@ && self.sessions@.contains_key(k) && self.sessions@[k].state
                            == SessionState::Open
                    },
            decreases n - i,
        {
            let w = &self.staged[i];
            proof {
                assert(s0.take(i + 1).drop_last() =~= s0.take(i as int));
                assert(s0.take(i + 1).last() == write_view(*w));
            }
            if w.session == id {
                if commit {
                    let ghost before = self.tree();
                    self.tree.insert(w.path.clone(), w.content.clone());
                    proof {
                        assert(self.tree() =~= before.insert(w.path@, w.content@));
                    }
                }
            } else {
                proof {
                    assert(self.staged@[i as int] == *w);
                    assert(old(self).staged@[i as int] == *w);
                    assert(w.session@ != id@);
                    assert(self.sessions@.contains_key(w.session@));
                    assert(self.sessions@[w.session@].state == SessionState::Open);
                }
                let ghost kv = kept@;
                let c = StagedWrite {
                    session: w.session.clone(),
                    path: w.path.clone(),
                    content: w.content.clone(),
                };
                kept.push(c);
                proof {
                    assert(writes_view(kept@) =~= writes_view(kv).push(write_view(c)));
                    assert(kept@[kept@.len() - 1] == c);
                    assert forall|j: int|
                        0 <= j < kept@.len() implies {
                            let k = (#[trigger] kept@[j]).session@;
                            k != id@ && self.sessions@.contains_key(k) && self.sessions@[k].state
                                == SessionState::Open
                        } by {
                        if j < kv.len() {
                            assert(kept@[j] == kv[j]);
                        } else {
                            assert(kept@[j].session == w.session);
                        }
                    }
                }
            }
            i += 1;
        }
        proof {
            assert(s0.take(n as int) =~= s0);
        }
        self.staged = kept;
        let ghost key = id@;
        self.sessions.insert(id, SessionRecord { base_path: base, state: to });
        proof {
            assert(self@ =~= old(self)@.insert(key, (old(self)@[key].0, to)));
        }
        Ok(())
    }

    /// Commits open session `id`: its staged writes are applied to the tree
    /// in the order they were staged, and it is terminal afterwards. Fails,
    /// changing nothing, when `id` was never issued or is already terminal.
    pub fn commit_session(&mut self, session_id: String) -> (r: Result<(), SessionError>)
        requires
            old(self).wf(),
        ensures
            final(self).wf(),
            match finish_spec(old(self)@, session_id@, SessionState::Committed) {
                Some(m) => r is Ok && final(self)@ == m && final(self).staged() == others(
                    old(self).staged(),
                    session_id@,
                ) && final(self).tree() == apply_writes(
                    old(self).tree(),
                    old(self).staged(),
                    session_id@,
                ),
                None => final(self)@ == old(self)@ && final(self).staged() == old(self).staged()
                    && final(self).tree() == old(self).tree() && (r matches Err(
                    SessionError::UnknownSession(s),
                ) && s@ == session_id@),
            },
    {
        self.finish(session_id, SessionState::Committed)
    }

    /// Abandons open session `id`: its staged writes are discarded and it is
    /// terminal afterwards. Fails, changing nothing, when `id` was never
    /// issued or is already terminal.
    pub fn abandon_session(&mut self, session_id: String) -> (r: Result<(), SessionError>)
        requires
            old(self).wf(),
        ensures
            final(self).wf(),
            match finish_spec(old(self)@, session_id@, SessionState::Abandoned) {
                Some(m) => r is Ok && final(self)@ == m && final(self).staged() == others(
                    old(self).staged(),
                    session_id@,
                ) && final(self).tree() == old(self).tree(),
                None => final(self)@ == old(self)@ && final(self).staged() == old(self).staged()
                    && final(self).tree() == old(self).tree() && (r matches Err(
                    SessionError::UnknownSession(s),
                ) && s@ == session_id@),
            },
    {
        self.finish(session_id, SessionState::Abandoned)
    }

    /// The state of session `id`, if it was ever issued.
    pub fn state(&self, session_id: &str) -> (r: Option<SessionState>)
        requires
            self.wf(),
        ensures
            match r {
                Some(s) => self@.contains_key(session_id@) && self@[session_id@].1 == s,
                None => !self@.contains_key(session_id@),
            },
    {
        match self.sessions.get(session_id) {
            Some(rec) => Some(rec.state),
            None => None,
        }
    }

    /// The committed content at `path` in the resource tree.
    pub fn resource(&self, path: &str) -> (r: Option<&String>)
        requires
            self.wf(),
        ensures
            match r {
                Some(c) => self.tree().contains_key(path@) && c@ == self.tree()[path@],
                None => !self.tree().contains_key(path@),
            },
    {
        self.tree.get(path)
    }
}

/// A session that was begun commits exactly once: the first commit of its
/// id succeeds, a second fails, and a commit of an id never issued fails.
pub proof fn commit_succeeds_once(m: Map<Seq<char>, SessionView>, id: Seq<char>, base: Seq<char>, other: Seq<char>)
    requires
        valid_base_path(base),
        !m.contains_key(id),
        !m.contains_key(other),
        other != id,
    ensures
        begin_spec(m, id, base) is Some,
        finish_spec(begin_spec(m, id, base).unwrap(), id, SessionState::Committed) is Some,
        finish_spec(
            finish_spec(begin_spec(m, id, base).unwrap(), id, SessionState::Committed).unwrap(),
            id,
            SessionState::Committed,
        ) is None,
        finish_spec(begin_spec(m, id, base).unwrap(), other, SessionState::Committed) is None,
        finish_spec(m, other, SessionState::Committed) is None,
{
}

} // verus!
