//! The central registry of sessions and their channels.
//!
//! The tracker owns every session and every FIFO, indexed both by session
//! name and by reactor token, and offers the only entry points for
//! registration, lookup by token and teardown. Its contracts are stated
//! over [`TrackerModel`], the pair of maps the two indexes denote; the
//! cross-map consistency invariant [`TrackerModel::inv`] holds after every
//! operation.

use crate::assoc::{
    assoc_map, lemma_assoc_absent, lemma_assoc_at, lemma_assoc_contains, lemma_assoc_empty,
    lemma_assoc_push, lemma_assoc_remove, lemma_assoc_update_auto, lemma_assoc_witness,
    unique_keys,
};
use crate::session::{Fifo, Session};
use crate::token::Token;
use vstd::prelude::*;
use vstd::string::StrSliceExecFns;

verus! {

/// What the tracker abstractly is: a map from session name to session and
/// a map from reactor token to FIFO.
pub ghost struct TrackerModel {
    pub sessions: Map<Seq<char>, Session>,
    pub fifos: Map<Token, Fifo>,
}

impl TrackerModel {
    /// The tracked session under `n` is well connected: its name is its
    /// key, its two tokens are distinct, and each resolves in the channel
    /// index to a FIFO owned by this very session.
    pub open spec fn session_entry_ok(self, n: Seq<char>) -> bool {
        let s = self.sessions[n];
        &&& s.spec_name() == n
        &&& s.spec_cmd_token() != s.spec_buf_token()
        &&& self.fifos.contains_key(s.spec_cmd_token())
        &&& self.fifos.contains_key(s.spec_buf_token())
        &&& self.fifos[s.spec_cmd_token()].spec_session() == n
        &&& self.fifos[s.spec_buf_token()].spec_session() == n
    }

    /// The FIFO tracked under `t` belongs to a live session, and `t` is one
    /// of that session's two tokens — so no token resolves to a channel of
    /// a different session.
    pub open spec fn fifo_entry_ok(self, t: Token) -> bool {
        let f = self.fifos[t];
        &&& self.sessions.contains_key(f.spec_session())
        &&& (t == self.sessions[f.spec_session()].spec_cmd_token() || t
            == self.sessions[f.spec_session()].spec_buf_token())
    }

    /// Cross-map consistency: every tracked session's tokens resolve to its
    /// own two channels, and every tracked channel's token is one of
    /// exactly one session's two tokens.
    pub open spec fn inv(self) -> bool {
        &&& forall|n: Seq<char>| #[trigger] self.sessions.contains_key(n) ==> self.session_entry_ok(n)
        &&& forall|t: Token| #[trigger] self.fifos.contains_key(t) ==> self.fifo_entry_ok(t)
    }

    /// Precondition of registration: the name is free, it is the session's
    /// own name, the session's two tokens are distinct and free, and both
    /// FIFOs name this session as their owner.
    pub open spec fn track_ok(
        self,
        name: Seq<char>,
        session: Session,
        cmd_fifo: Fifo,
        buf_fifo: Fifo,
    ) -> bool {
        &&& !self.sessions.contains_key(name)
        &&& session.spec_name() == name
        &&& session.spec_cmd_token() != session.spec_buf_token()
        &&& !self.fifos.contains_key(session.spec_cmd_token())
        &&& !self.fifos.contains_key(session.spec_buf_token())
        &&& cmd_fifo.spec_session() == name
        &&& buf_fifo.spec_session() == name
    }

    /// Registration: the session enters the name index, its two FIFOs the
    /// token index.
    pub open spec fn track(
        self,
        name: Seq<char>,
        session: Session,
        cmd_fifo: Fifo,
        buf_fifo: Fifo,
    ) -> TrackerModel {
        TrackerModel {
            sessions: self.sessions.insert(name, session),
            fifos: self.fifos.insert(session.spec_cmd_token(), cmd_fifo).insert(
                session.spec_buf_token(),
                buf_fifo,
            ),
        }
    }

    /// Teardown: the session and both its channels leave together; an
    /// unknown name changes nothing.
    pub open spec fn untrack(self, name: Seq<char>) -> TrackerModel {
        if self.sessions.contains_key(name) {
            let s = self.sessions[name];
            TrackerModel {
                sessions: self.sessions.remove(name),
                fifos: self.fifos.remove(s.spec_cmd_token()).remove(s.spec_buf_token()),
            }
        } else {
            self
        }
    }

    /// What teardown hands back: the removed session together with the
    /// channels found under its two tokens, or `None` for an unknown name.
    pub open spec fn untrack_result(self, name: Seq<char>) -> Option<
        (Session, Option<Fifo>, Option<Fifo>),
    > {
        if self.sessions.contains_key(name) {
            let s = self.sessions[name];
            Some(
                (
                    s,
                    if self.fifos.contains_key(s.spec_cmd_token()) {
                        Some(self.fifos[s.spec_cmd_token()])
                    } else {
                        None
                    },
                    if self.fifos.contains_key(s.spec_buf_token()) {
                        Some(self.fifos[s.spec_buf_token()])
                    } else {
                        None
                    },
                ),
            )
        } else {
            None
        }
    }

    /// In-place replacement of one session and one channel, as a caller of
    /// [`SessionTracker::by_token`] performs it through the lent-out
    /// references.
    pub open spec fn patch(
        self,
        name: Seq<char>,
        session: Session,
        t: Token,
        fifo: Fifo,
    ) -> TrackerModel {
        TrackerModel {
            sessions: self.sessions.insert(name, session),
            fifos: self.fifos.insert(t, fifo),
        }
    }
}

spec fn session_key() -> spec_fn(Session) -> Seq<char> {
    |s: Session| s.spec_name()
}

spec fn session_val() -> spec_fn(Session) -> Session {
    |s: Session| s
}

spec fn fifo_key() -> spec_fn((Token, Fifo)) -> Token {
    |e: (Token, Fifo)| e.0
}

spec fn fifo_val() -> spec_fn((Token, Fifo)) -> Fifo {
    |e: (Token, Fifo)| e.1
}

/// The central registry: owns all sessions and all FIFOs, indexed by
/// session name and by reactor token.
///
/// All mutation goes through [`Self::track`], [`Self::untrack`] and
/// [`Self::by_token`]; the two indexes are private, so the cross-map
/// invariant cannot be broken from outside.
#[derive(Debug)]
pub struct SessionTracker {
    sessions: Vec<Session>,
    fifos: Vec<(Token, Fifo)>,
}

impl View for SessionTracker {
    type V = TrackerModel;

    closed spec fn view(&self) -> TrackerModel {
        TrackerModel {
            sessions: assoc_map(self.sessions@, session_key(), session_val()),
            fifos: assoc_map(self.fifos@, fifo_key(), fifo_val()),
        }
    }
}

impl SessionTracker {
    /// Internal well-formedness: entries of either index carry pairwise
    /// distinct keys, together with the cross-map consistency of the
    /// denoted maps.
    pub closed spec fn wf(self) -> bool {
        &&& unique_keys(self.sessions@, session_key())
        &&& unique_keys(self.fifos@, fifo_key())
    }

    /// The tracker is valid: well formed, and its model satisfies the
    /// cross-map invariant.
    pub open spec fn inv(self) -> bool {
        &&& self.wf()
        &&& self@.inv()
    }

    /// True iff no session is registered; then no channel is either.
    pub fn is_empty(&self) -> (r: bool)
        requires
            self.inv(),
        ensures
            r <==> self@.sessions == Map::<Seq<char>, Session>::empty(),
            r ==> self@.fifos == Map::<Token, Fifo>::empty(),
    {
        let r = self.sessions.len() == 0;
        proof {
            if r {
                lemma_assoc_empty(self.sessions@, session_key(), session_val());
                assert forall|t: Token| !self@.fifos.contains_key(t) by {
                    if self@.fifos.contains_key(t) {
                        assert(self@.fifo_entry_ok(t));
                    }
                }
                assert(self@.fifos =~= Map::<Token, Fifo>::empty());
            } else {
                lemma_assoc_at(self.sessions@, session_key(), session_val(), 0);
                assert(self@.sessions.contains_key(self.sessions@[0].spec_name()));
            }
        }
        r
    }

    /// Index of the session named `name`, if any.
    fn session_index(&self, name: &str) -> (r: Option<usize>)
        ensures
            match r {
                Some(i) => i < self.sessions@.len() && self.sessions@[i as int].spec_name()
                    == name@,
                None => forall|j: int|
                    0 <= j < self.sessions@.len() ==> self.sessions@[j].spec_name() != name@,
            },
    {
        let mut i: usize = 0;
        while i < self.sessions.len()
            invariant
                i <= self.sessions@.len(),
                forall|j: int| 0 <= j < i ==> self.sessions@[j].spec_name() != name@,
            decreases self.sessions@.len() - i,
        {
            if str_eq(self.sessions[i].name(), name) {
                return Some(i);
            }
            i += 1;
        }
        None
    }

    /// Index of the FIFO registered under `token`, if any.
    fn fifo_index(&self, token: Token) -> (r: Option<usize>)
        ensures
            match r {
                Some(j) => j < self.fifos@.len() && self.fifos@[j as int].0 == token,
                None => forall|j: int| 0 <= j < self.fifos@.len() ==> self.fifos@[j].0 != token,
            },
    {
        let mut j: usize = 0;
        while j < self.fifos.len()
            invariant
                j <= self.fifos@.len(),
                forall|i: int| 0 <= i < j ==> self.fifos@[i].0 != token,
            decreases self.fifos@.len() - j,
        {
            if self.fifos[j].0 == token {
                return Some(j);
            }
            j += 1;
        }
        None
    }

    /// Whether a session of this name is registered.
    fn has_session(&self, name: &str) -> (r: bool)
        ensures
            r == self@.sessions.contains_key(name@),
    {
        match self.session_index(name) {
            Some(i) => {
                proof {
                    lemma_assoc_witness(self.sessions@, session_key(), session_val(), i as int);
                }
                true
            },
            None => {
                proof {
                    lemma_assoc_absent(self.sessions@, session_key(), session_val(), name@);
                }
                false
            },
        }
    }

    /// Whether a FIFO is registered under this token.
    fn has_fifo(&self, token: Token) -> (r: bool)
        ensures
            r == self@.fifos.contains_key(token),
    {
        match self.fifo_index(token) {
            Some(j) => {
                proof {
                    lemma_assoc_witness(self.fifos@, fifo_key(), fifo_val(), j as int);
                }
                true
            },
            None => {
                proof {
                    lemma_assoc_absent(self.fifos@, fifo_key(), fifo_val(), token);
                }
                false
            },
        }
    }

    /// Registers a new session atomically with both its channels.
    ///
    /// The precondition of registration — a free name that is the
    /// session's own, two distinct free tokens, FIFOs that name this
    /// session as their owner — is the caller's duty (the reactor is the
    /// sole token allocator and must not reuse a live token). A call that
    /// violates it is a caller error; it is rejected deterministically,
    /// leaving the tracker exactly as it was, so the cross-map invariant
    /// is never corrupted. After an accepted call both indexes are
    /// updated, with no partial state observable.
    pub fn track(
        &mut self,
        session_name: String,
        session: Session,
        cmd_fifo: Fifo,
        buf_fifo: Fifo,
    )
        requires
            old(self).inv(),
        ensures
            final(self).inv(),
            old(self)@.track_ok(session_name@, session, cmd_fifo, buf_fifo) ==> final(self)@
                == old(self)@.track(session_name@, session, cmd_fifo, buf_fifo),
            !old(self)@.track_ok(session_name@, session, cmd_fifo, buf_fifo) ==> *final(self)
                == *old(self),
    {
        let name_free = !self.has_session(session_name.as_str());
        let name_own = str_eq(session.name(), session_name.as_str());
        let cmd_token = session.cmd_token();
        let buf_token = session.buf_token();
        let tokens_distinct = cmd_token != buf_token;
        let cmd_free = !self.has_fifo(cmd_token);
        let buf_free = !self.has_fifo(buf_token);
        let cmd_own = str_eq(cmd_fifo.session(), session_name.as_str());
        let buf_own = str_eq(buf_fifo.session(), session_name.as_str());
        if !(name_free && name_own && tokens_distinct && cmd_free && buf_free && cmd_own
            && buf_own) {
            return;
        }
        self.fifos.push((cmd_token, cmd_fifo));
        proof {
            lemma_assoc_push(old(self).fifos@, fifo_key(), fifo_val(), (cmd_token, cmd_fifo));
        }
        self.fifos.push((buf_token, buf_fifo));
        proof {
            lemma_assoc_push(
                old(self).fifos@.push((cmd_token, cmd_fifo)),
                fifo_key(),
                fifo_val(),
                (buf_token, buf_fifo),
            );
        }
        self.sessions.push(session);
        proof {
            lemma_assoc_push(old(self).sessions@, session_key(), session_val(), session);
            lemma_track_preserves_inv(old(self)@, session_name@, session, cmd_fifo, buf_fifo);
            assert(self@ == old(self)@.track(session_name@, session, cmd_fifo, buf_fifo));
        }
    }

    /// Removes the session of this name and both its channels in one
    /// operation and returns them, or returns `None` — changing nothing —
    /// if no such session exists.
    ///
    /// This is the single release point: the caller deregisters the
    /// reactor tokens using the returned channels. The operation is
    /// idempotent — a second call for the same name finds nothing and
    /// returns `None`.
    pub fn untrack(&mut self, session_name: &str) -> (r: Option<
        (Session, Option<Fifo>, Option<Fifo>),
    >)
        requires
            old(self).inv(),
        ensures
            final(self).inv(),
            r == old(self)@.untrack_result(session_name@),
            final(self)@ == old(self)@.untrack(session_name@),
    {
        let i = match self.session_index(session_name) {
            None => {
                proof {
                    lemma_assoc_absent(
                        self.sessions@,
                        session_key(),
                        session_val(),
                        session_name@,
                    );
                }
                return None;
            },
            Some(i) => i,
        };
        proof {
            lemma_assoc_at(self.sessions@, session_key(), session_val(), i as int);
            lemma_assoc_remove(self.sessions@, session_key(), session_val(), i as int);
        }
        let session = self.sessions.remove(i);
        // Under the invariant both of the session's tokens are present in
        // the channel index, so neither branch below can miss.
        let cmd_fifo = match self.fifo_index(session.cmd_token()) {
            None => {
                proof {
                    lemma_assoc_absent(
                        self.fifos@,
                        fifo_key(),
                        fifo_val(),
                        session.spec_cmd_token(),
                    );
                    assert(false);
                }
                None
            },
            Some(j) => {
                proof {
                    lemma_assoc_at(self.fifos@, fifo_key(), fifo_val(), j as int);
                    lemma_assoc_remove(self.fifos@, fifo_key(), fifo_val(), j as int);
                }
                let e = self.fifos.remove(j);
                Some(e.1)
            },
        };
        let buf_fifo = match self.fifo_index(session.buf_token()) {
            None => {
                proof {
                    lemma_assoc_absent(
                        self.fifos@,
                        fifo_key(),
                        fifo_val(),
                        session.spec_buf_token(),
                    );
                    lemma_assoc_contains(
                        old(self).fifos@,
                        fifo_key(),
                        fifo_val(),
                        session.spec_buf_token(),
                    );
                    assert(false);
                }
                None
            },
            Some(j) => {
                proof {
                    lemma_assoc_at(self.fifos@, fifo_key(), fifo_val(), j as int);
                    lemma_assoc_remove(self.fifos@, fifo_key(), fifo_val(), j as int);
                }
                let e = self.fifos.remove(j);
                Some(e.1)
            },
        };
        proof {
            lemma_untrack_preserves_inv(old(self)@, session_name@);
            assert(self@ == old(self)@.untrack(session_name@));
        }
        Some((session, cmd_fifo, buf_fifo))
    }

    /// Resolves a reactor-reported token to its owning session and channel
    /// for mutation.
    ///
    /// An unknown token — for instance a stale readiness notification that
    /// raced a teardown — resolves to `None` with no side effect; this is
    /// a safe, silent path, never a fault. On a hit, the caller receives
    /// the tracked session and channel themselves; as long as the identity
    /// fields (the session's name and tokens, the channel's owner) are
    /// left as they are, the tracker afterwards holds the mutated pair in
    /// place of the old one and still satisfies the cross-map invariant.
    pub fn by_token(&mut self, token: Token) -> (r: Option<(&mut Session, &mut Fifo)>)
        requires
            old(self).inv(),
        ensures
            !old(self)@.fifos.contains_key(token) ==> r is None && *final(self) == *old(self)
                && final(self).inv(),
            old(self)@.fifos.contains_key(token) ==> (r matches Some((session, fifo)) && {
                let f0 = old(self)@.fifos[token];
                let n0 = f0.spec_session();
                let s0 = old(self)@.sessions[n0];
                &&& *fifo == f0
                &&& *session == s0
                &&& final(self)@.fifos == old(self)@.fifos.insert(token, *final(fifo))
                &&& ((*final(session)).spec_name() == s0.spec_name() ==> final(self)@.sessions
                    == old(self)@.sessions.insert(n0, *final(session)))
                &&& (((*final(session)).spec_name() == s0.spec_name()
                    && (*final(session)).spec_cmd_token() == s0.spec_cmd_token()
                    && (*final(session)).spec_buf_token() == s0.spec_buf_token()
                    && (*final(fifo)).spec_session() == f0.spec_session())
                    ==> final(self)@ == old(self)@.patch(n0, *final(session), token, *final(fifo))
                    && final(self).inv())
            }),
    {
        broadcast use lemma_assoc_update_auto;
        broadcast use lemma_patch_preserves_inv;

        let j = match self.fifo_index(token) {
            None => {
                proof {
                    lemma_assoc_absent(self.fifos@, fifo_key(), fifo_val(), token);
                }
                return None;
            },
            Some(j) => j,
        };
        proof {
            lemma_assoc_at(self.fifos@, fifo_key(), fifo_val(), j as int);
        }
        let i = match self.session_index(self.fifos[j].1.session()) {
            None => {
                proof {
                    // contradicts the invariant: a tracked channel's owner
                    // is a tracked session
                    lemma_assoc_absent(
                        self.sessions@,
                        session_key(),
                        session_val(),
                        self.fifos@[j as int].1.spec_session(),
                    );
                }
                vstd::pervasive::unreached()
            },
            Some(i) => i,
        };
        proof {
            lemma_assoc_at(self.sessions@, session_key(), session_val(), i as int);
        }
        let session = &mut self.sessions[i];
        let fifo = &mut self.fifos[j].1;
        Some((session, fifo))
    }
}

impl Default for SessionTracker {
    /// An empty tracker: nothing registered under any name or token.
    fn default() -> (r: SessionTracker)
        ensures
            r.inv(),
            r@.sessions == Map::<Seq<char>, Session>::empty(),
            r@.fifos == Map::<Token, Fifo>::empty(),
    {
        let t = SessionTracker { sessions: Vec::new(), fifos: Vec::new() };
        proof {
            lemma_assoc_empty(t.sessions@, session_key(), session_val());
            lemma_assoc_empty(t.fifos@, fifo_key(), fifo_val());
        }
        t
    }
}

/// Registration preserves the cross-map invariant: adding a session under
/// a free name together with its two channels under free, distinct tokens
/// leaves the pair of maps consistent again.
pub proof fn lemma_track_preserves_inv(
    m: TrackerModel,
    name: Seq<char>,
    session: Session,
    cmd_fifo: Fifo,
    buf_fifo: Fifo,
)
    requires
        m.inv(),
        m.track_ok(name, session, cmd_fifo, buf_fifo),
    ensures
        m.track(name, session, cmd_fifo, buf_fifo).inv(),
{
    let m1 = m.track(name, session, cmd_fifo, buf_fifo);
    assert forall|n: Seq<char>| #[trigger] m1.sessions.contains_key(n) implies
        m1.session_entry_ok(n) by {
        if n != name {
            assert(m.sessions.contains_key(n));
            assert(m.session_entry_ok(n));
            let s = m.sessions[n];
            assert(m.fifos.contains_key(s.spec_cmd_token()));
            assert(m.fifos.contains_key(s.spec_buf_token()));
        }
    }
    assert forall|t: Token| #[trigger] m1.fifos.contains_key(t) implies m1.fifo_entry_ok(t) by {
        if t != session.spec_cmd_token() && t != session.spec_buf_token() {
            assert(m.fifos.contains_key(t));
            assert(m.fifo_entry_ok(t));
            let f = m.fifos[t];
            assert(m.sessions.contains_key(f.spec_session()));
            assert(f.spec_session() != name);
        }
    }
}

/// Teardown preserves the cross-map invariant: removing a session together
/// with the channels under its two tokens — or removing nothing, for an
/// unknown name — leaves the pair of maps consistent.
pub proof fn lemma_untrack_preserves_inv(m: TrackerModel, name: Seq<char>)
    requires
        m.inv(),
    ensures
        m.untrack(name).inv(),
{
    if m.sessions.contains_key(name) {
        let s = m.sessions[name];
        let m1 = m.untrack(name);
        assert forall|n: Seq<char>| #[trigger] m1.sessions.contains_key(n) implies
            m1.session_entry_ok(n) by {
            assert(m.sessions.contains_key(n));
            assert(m.session_entry_ok(n));
            let sn = m.sessions[n];
            // `sn`'s channels are owned by `n`, the removed ones by
            // `name`, so the removed tokens are not `sn`'s
            assert(m.fifos[sn.spec_cmd_token()].spec_session() == n);
            assert(m.fifos[sn.spec_buf_token()].spec_session() == n);
            assert(m.fifos[s.spec_cmd_token()].spec_session() == name);
            assert(m.fifos[s.spec_buf_token()].spec_session() == name);
        }
        assert forall|t: Token| #[trigger] m1.fifos.contains_key(t) implies m1.fifo_entry_ok(t) by {
            assert(m.fifos.contains_key(t));
            assert(m.fifo_entry_ok(t));
            let f = m.fifos[t];
            // were `f` owned by the removed session, `t` would be one of
            // its two tokens, which were removed
            assert(f.spec_session() != name);
        }
    }
}

/// An in-place replacement of a resolved session and channel that keeps
/// the identity fields — the session's name and tokens, the channel's
/// owner — preserves the cross-map invariant. Broadcast, so that it
/// applies to the final values behind the references
/// [`SessionTracker::by_token`] lends out.
pub broadcast proof fn lemma_patch_preserves_inv(
    m: TrackerModel,
    name: Seq<char>,
    session: Session,
    t: Token,
    fifo: Fifo,
)
    requires
        m.inv(),
        m.fifos.contains_key(t),
        m.fifos[t].spec_session() == name,
        session.spec_name() == m.sessions[name].spec_name(),
        session.spec_cmd_token() == m.sessions[name].spec_cmd_token(),
        session.spec_buf_token() == m.sessions[name].spec_buf_token(),
        fifo.spec_session() == m.fifos[t].spec_session(),
    ensures
        (#[trigger] m.patch(name, session, t, fifo)).inv(),
{
    let m1 = m.patch(name, session, t, fifo);
    assert(m.sessions.contains_key(name));
    let s0 = m.sessions[name];
    assert forall|n: Seq<char>| #[trigger] m1.sessions.contains_key(n) implies
        m1.session_entry_ok(n) by {
        assert(m.sessions.contains_key(n));
        assert(m.session_entry_ok(n));
        let sn = m.sessions[n];
        if n != name {
            assert(m.fifos[sn.spec_cmd_token()].spec_session() == n);
            assert(m.fifos[sn.spec_buf_token()].spec_session() == n);
            assert(sn.spec_cmd_token() != t);
            assert(sn.spec_buf_token() != t);
        }
    }
    assert forall|u: Token| #[trigger] m1.fifos.contains_key(u) implies m1.fifo_entry_ok(u) by {
        assert(m.fifos.contains_key(u));
        assert(m.fifo_entry_ok(u));
    }
}

/// Teardown is idempotent: the first call for a name returns the
/// session's data exactly when the name is tracked; afterwards the name is
/// unknown, so a second call returns `None`.
pub proof fn lemma_untrack_idempotent(m: TrackerModel, name: Seq<char>)
    ensures
        m.untrack_result(name) is Some <==> m.sessions.contains_key(name),
        m.untrack(name).untrack_result(name) is None,
{
}

/// Lookup safety after teardown: untracking a session removes both its
/// tokens from the channel index, so a later lookup of either token
/// resolves to nothing.
pub proof fn lemma_untrack_clears_tokens(m: TrackerModel, name: Seq<char>)
    requires
        m.sessions.contains_key(name),
    ensures
        !m.untrack(name).fifos.contains_key(m.sessions[name].spec_cmd_token()),
        !m.untrack(name).fifos.contains_key(m.sessions[name].spec_buf_token()),
        !m.untrack(name).sessions.contains_key(name),
{
}

/// Character-wise string comparison, equivalent to equality of the views.
fn str_eq(a: &str, b: &str) -> (r: bool)
    ensures
        r == (a@ == b@),
{
    let n = a.unicode_len();
    if n != b.unicode_len() {
        return false;
    }
    let mut i: usize = 0;
    while i < n
        invariant
            n == a@.len(),
            a@.len() == b@.len(),
            i <= n,
            forall|j: int| 0 <= j < i ==> a@[j] == b@[j],
        decreases n - i,
    {
        if a.get_char(i) != b.get_char(i) {
            return false;
        }
        i += 1;
    }
    proof {
        assert(a@ =~= b@);
    }
    true
}

} // verus!
