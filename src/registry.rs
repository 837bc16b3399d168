use vstd::prelude::*;

use crate::error::ErrorKind;
use crate::session::{
    backoff_delay_ms, backoff_spec, MAX_RECONNECT_ATTEMPTS, Session, SessionState, SessionView,
};

verus! {

/// The registry's model: server identifier to session.
pub type SessionMap = Map<Seq<char>, SessionView>;

/// No two stored sessions share a server identifier.
pub open spec fn ids_unique(s: Seq<Session>) -> bool {
    forall|i: int, j: int|
        0 <= i < s.len() && 0 <= j < s.len() && s[i].server_id@ == s[j].server_id@ ==> i == j
}

pub open spec fn contains_id(s: Seq<Session>, id: Seq<char>) -> bool {
    exists|i: int| 0 <= i < s.len() && s[i].server_id@ == id
}

pub open spec fn session_map(s: Seq<Session>) -> SessionMap {
    Map::new(
        |id: Seq<char>| contains_id(s, id),
        |id: Seq<char>| s[choose|i: int| 0 <= i < s.len() && s[i].server_id@ == id]@,
    )
}

/// A session for `id` exists and is connected.
pub open spec fn is_live(m: SessionMap, id: Seq<char>) -> bool {
    m.contains_key(id) && m[id].state == SessionState::Connected && m[id].transport is Some
}

/// What `resolve` returns on the model.
pub open spec fn resolve_spec(m: SessionMap, id: Seq<char>) -> Result<u64, ErrorKind> {
    if is_live(m, id) {
        Ok(m[id].transport->Some_0)
    } else if m.contains_key(id) && m[id].state == SessionState::Reconnecting {
        Err(ErrorKind::TransportLost)
    } else {
        Err(ErrorKind::NotConnected)
    }
}

/// A fresh session about to authenticate.
pub open spec fn connecting_session(
    id: Seq<char>,
    host: Seq<char>,
    port: u16,
    username: Seq<char>,
    now: u64,
) -> SessionView {
    SessionView {
        server_id: id,
        host,
        port,
        username,
        state: SessionState::Connecting,
        transport: None,
        last_error: None,
        last_activity_at: now,
        failed_attempts: 0,
    }
}

/// The model after the first half of `connect`.
pub open spec fn after_begin_connect(
    m: SessionMap,
    id: Seq<char>,
    host: Seq<char>,
    port: u16,
    username: Seq<char>,
    now: u64,
) -> SessionMap {
    if is_live(m, id) {
        m
    } else {
        m.insert(id, connecting_session(id, host, port, username, now))
    }
}

/// The model once authentication has reported `outcome`.
pub open spec fn after_finish_connect(
    m: SessionMap,
    id: Seq<char>,
    outcome: Result<u64, ErrorKind>,
    now: u64,
) -> SessionMap {
    if m.contains_key(id) && m[id].state == SessionState::Connecting {
        match outcome {
            Ok(h) => m.insert(
                id,
                m[id].moved(SessionState::Connected, Some(h), None, 0).touched(now),
            ),
            Err(e) => m.insert(id, m[id].moved(SessionState::Failed, None, Some(e), 0)),
        }
    } else {
        m
    }
}

/// What the second half of `connect` returns.
pub open spec fn finish_connect_spec(
    m: SessionMap,
    id: Seq<char>,
    outcome: Result<u64, ErrorKind>,
) -> Result<u64, ErrorKind> {
    if m.contains_key(id) && m[id].state == SessionState::Connecting {
        outcome
    } else {
        Err(ErrorKind::NotConnected)
    }
}

/// The model after a transport failure was seen on session `id`.
pub open spec fn after_transport_lost(m: SessionMap, id: Seq<char>) -> SessionMap {
    if is_live(m, id) {
        m.insert(id, m[id].moved(SessionState::Reconnecting, None, Some(ErrorKind::TransportLost), 0))
    } else {
        m
    }
}

/// The model after a reconnection attempt failed with `e`.
pub open spec fn after_reconnect_failed(m: SessionMap, id: Seq<char>, e: ErrorKind) -> SessionMap {
    if m.contains_key(id) && m[id].state == SessionState::Reconnecting
        && m[id].failed_attempts < MAX_RECONNECT_ATTEMPTS {
        if m[id].failed_attempts + 1 >= MAX_RECONNECT_ATTEMPTS {
            m.insert(
                id,
                m[id].moved(SessionState::Failed, None, Some(e), (m[id].failed_attempts + 1) as u32),
            )
        } else {
            m.insert(
                id,
                m[id].moved(
                    SessionState::Reconnecting,
                    None,
                    Some(e),
                    (m[id].failed_attempts + 1) as u32,
                ),
            )
        }
    } else {
        m
    }
}

/// The model once a reconnection of `id` has begun.
pub open spec fn after_begin_reconnect(m: SessionMap, id: Seq<char>) -> SessionMap {
    if m.contains_key(id) {
        m.insert(id, m[id].moved(SessionState::Reconnecting, None, m[id].last_error, 0))
    } else {
        m
    }
}

/// What a failed reconnection attempt tells the caller to do.
pub open spec fn reconnect_decision_spec(m: SessionMap, id: Seq<char>) -> ReconnectDecision {
    if m.contains_key(id) && m[id].state == SessionState::Reconnecting
        && m[id].failed_attempts + 1 < MAX_RECONNECT_ATTEMPTS {
        ReconnectDecision::Retry(backoff_spec((m[id].failed_attempts + 1) as nat) as u64)
    } else {
        ReconnectDecision::GiveUp
    }
}

/// The model once a reconnection attempt succeeded with transport `h`.
pub open spec fn after_reconnect_succeeded(m: SessionMap, id: Seq<char>, h: u64, now: u64) -> SessionMap {
    if m.contains_key(id) && m[id].state == SessionState::Reconnecting {
        m.insert(id, m[id].moved(SessionState::Connected, Some(h), None, 0).touched(now))
    } else {
        m
    }
}

/// What the caller should do after a failed reconnection attempt.
#[derive(Debug, Clone, Copy, PartialEq, Eq, Structural)]
pub enum ReconnectDecision {
    /// Wait this many milliseconds, then attempt again.
    Retry(u64),
    /// The budget is spent (or nothing is reconnecting): stop.
    GiveUp,
}

/// The first half of `connect`.
#[derive(Debug, Clone, Copy, PartialEq, Eq, Structural)]
pub enum ConnectStep {
    /// A connected session exists already; here is its transport handle.
    AlreadyConnected(u64),
    /// The caller must authenticate and report back with `finish_connect`.
    Authenticate,
}

/// The parameters a session was opened with.
pub struct SshConnection {
    pub server_id: String,
    pub host: String,
    pub port: u16,
    pub username: String,
}

/// Last-known connection parameters, for re-authentication.
pub struct ReconnectTarget {
    pub host: String,
    pub port: u16,
    pub username: String,
    /// The transport the session held, which the caller must close.
    pub stale_transport: Option<u64>,
}

/// The concurrent map from server identifier to session; the single authority
/// for connect, disconnect and lookup.
pub struct SessionRegistry {
    sessions: Vec<Session>,
}

impl View for SessionRegistry {
    type V = SessionMap;

    closed spec fn view(&self) -> SessionMap {
        session_map(self.sessions@)
    }
}

proof fn lemma_lookup(s: Seq<Session>, i: int)
    requires
        ids_unique(s),
        0 <= i < s.len(),
    ensures
        session_map(s).contains_key(s[i].server_id@),
        session_map(s)[s[i].server_id@] == s[i]@,
{
    let id = s[i].server_id@;
    assert(contains_id(s, id));
    let j = choose|j: int| 0 <= j < s.len() && s[j].server_id@ == id;
    assert(j == i);
}

proof fn lemma_remove(s: Seq<Session>, i: int)
    requires
        ids_unique(s),
        0 <= i < s.len(),
    ensures
        ids_unique(s.remove(i)),
        session_map(s.remove(i)) == session_map(s).remove(s[i].server_id@),
{
    let t = s.remove(i);
    let id = s[i].server_id@;
    assert forall|a: int, b: int|
        0 <= a < t.len() && 0 <= b < t.len() && t[a].server_id@ == t[b].server_id@ implies a
        == b by {
        let a0 = if a < i { a } else { a + 1 };
        let b0 = if b < i { b } else { b + 1 };
        assert(t[a] == s[a0]);
        assert(t[b] == s[b0]);
    }
    assert forall|k: Seq<char>| #[trigger] contains_id(t, k) <==> contains_id(s, k) && k != id by {
        if contains_id(t, k) {
            let a = choose|a: int| 0 <= a < t.len() && t[a].server_id@ == k;
            let a0 = if a < i { a } else { a + 1 };
            assert(t[a] == s[a0]);
        }
        if contains_id(s, k) && k != id {
            let a0 = choose|a: int| 0 <= a < s.len() && s[a].server_id@ == k;
            let a = if a0 < i { a0 } else { a0 - 1 };
            assert(t[a] == s[a0]);
        }
    }
    assert forall|k: Seq<char>| #[trigger] contains_id(t, k) implies session_map(t)[k] == session_map(
        s,
    )[k] by {
        let a = choose|a: int| 0 <= a < t.len() && t[a].server_id@ == k;
        let a0 = if a < i { a } else { a + 1 };
        assert(t[a] == s[a0]);
        lemma_lookup(t, a);
        lemma_lookup(s, a0);
    }
    assert(session_map(t) =~= session_map(s).remove(id));
}

proof fn lemma_push(s: Seq<Session>, x: Session)
    requires
        ids_unique(s),
        !contains_id(s, x.server_id@),
    ensures
        ids_unique(s.push(x)),
        session_map(s.push(x)) == session_map(s).insert(x.server_id@, x@),
{
    let t = s.push(x);
    let n = s.len() as int;
    assert forall|a: int, b: int|
        0 <= a < t.len() && 0 <= b < t.len() && t[a].server_id@ == t[b].server_id@ implies a
        == b by {
        if a < n && b == n {
            assert(contains_id(s, x.server_id@));
        }
        if b < n && a == n {
            assert(contains_id(s, x.server_id@));
        }
    }
    assert forall|k: Seq<char>| #[trigger]
        contains_id(t, k) <==> contains_id(s, k) || k == x.server_id@ by {
        if contains_id(s, k) {
            let a = choose|a: int| 0 <= a < s.len() && s[a].server_id@ == k;
            assert(t[a] == s[a]);
        }
        if k == x.server_id@ {
            assert(t[n] == x);
        }
        if contains_id(t, k) && k != x.server_id@ {
            let a = choose|a: int| 0 <= a < t.len() && t[a].server_id@ == k;
            assert(t[a] == s[a]);
        }
    }
    assert forall|k: Seq<char>| #[trigger] contains_id(t, k) implies session_map(t)[k] == session_map(
        s,
    ).insert(x.server_id@, x@)[k] by {
        let a = choose|a: int| 0 <= a < t.len() && t[a].server_id@ == k;
        lemma_lookup(t, a);
        if a < n {
            assert(t[a] == s[a]);
            lemma_lookup(s, a);
        }
    }
    assert(session_map(t) =~= session_map(s).insert(x.server_id@, x@));
}

impl SessionRegistry {
    /// Every stored session is consistent and identifiers are unique.
    pub closed spec fn wf(&self) -> bool {
        &&& ids_unique(self.sessions@)
        &&& forall|k: Seq<char>| #[trigger]
            self@.contains_key(k) ==> self@[k].inv() && self@[k].server_id == k
    }

    /// An empty registry.
    pub fn new() -> (r: SessionRegistry)
        ensures
            r.wf(),
            r@ == Map::<Seq<char>, SessionView>::empty(),
    {
        let r = SessionRegistry { sessions: Vec::new() };
        assert(r@ =~= Map::<Seq<char>, SessionView>::empty());
        r
    }

    fn find(&self, id: &String) -> (r: Option<usize>)
        requires
            self.wf(),
        ensures
            match r {
                Some(i) => i < self.sessions@.len() && self.sessions@[i as int].server_id@ == id@
                    && self@.contains_key(id@) && self@[id@] == self.sessions@[i as int]@,
                None => !self@.contains_key(id@),
            },
    {
        let mut i: usize = 0;
        while i < self.sessions.len()
            invariant
                self.wf(),
                i <= self.sessions@.len(),
                forall|j: int| 0 <= j < i ==> self.sessions@[j].server_id@ != id@,
            decreases self.sessions@.len() - i,
        {
            if self.sessions[i].server_id == *id {
                proof {
                    lemma_lookup(self.sessions@, i as int);
                }
                return Some(i);
            }
            i = i + 1;
        }
        None
    }

    /// Takes session `i` out of storage.
    fn take(&mut self, i: usize) -> (s: Session)
        requires
            old(self).wf(),
            i < old(self).sessions@.len(),
        ensures
            s == old(self).sessions@[i as int],
            s@ == old(self)@[s.server_id@],
            old(self)@.contains_key(s.server_id@),
            final(self)@ == old(self)@.remove(s.server_id@),
            ids_unique(final(self).sessions@),
    {
        proof {
            lemma_lookup(self.sessions@, i as int);
            lemma_remove(self.sessions@, i as int);
        }
        self.sessions.remove(i)
    }

    /// Stores `s`, whose identifier is not yet stored.
    fn put(&mut self, s: Session)
        requires
            ids_unique(old(self).sessions@),
            !old(self)@.contains_key(s.server_id@),
        ensures
            final(self)@ == old(self)@.insert(s.server_id@, s@),
            ids_unique(final(self).sessions@),
    {
        proof {
            lemma_push(self.sessions@, s);
        }
        self.sessions.push(s);
    }

    /// The transport handle of the live session for `server_id`; `NotConnected`
    /// when there is none, `TransportLost` while it is reconnecting.
    pub fn resolve(&self, server_id: &String) -> (r: Result<u64, ErrorKind>)
        requires
            self.wf(),
        ensures
            r == resolve_spec(self@, server_id@),
    {
        match self.find(server_id) {
            None => Err(ErrorKind::NotConnected),
            Some(i) => {
                let s = &self.sessions[i];
                match s.state {
                    SessionState::Connected => match s.transport {
                        Some(h) => Ok(h),
                        None => Err(ErrorKind::NotConnected),
                    },
                    SessionState::Reconnecting => Err(ErrorKind::TransportLost),
                    _ => Err(ErrorKind::NotConnected),
                }
            },
        }
    }

    /// Stores `s` back after `take`, keeping the registry well formed.
    fn store(&mut self, s: Session)
        requires
            ids_unique(old(self).sessions@),
            !old(self)@.contains_key(s.server_id@),
            forall|k: Seq<char>| #[trigger]
                old(self)@.contains_key(k) ==> old(self)@[k].inv() && old(self)@[k].server_id == k,
            s@.inv(),
        ensures
            final(self).wf(),
            final(self)@ == old(self)@.insert(s.server_id@, s@),
    {
        self.put(s);
    }

    /// First half of `connect`. A connected session for `server_id` is returned
    /// as it is; otherwise a session in state `Connecting` takes its place and
    /// the caller must authenticate, then report with `finish_connect`.
    pub fn begin_connect(
        &mut self,
        server_id: String,
        host: String,
        port: u16,
        username: String,
        now: u64,
    ) -> (r: ConnectStep)
        requires
            old(self).wf(),
        ensures
            final(self).wf(),
            final(self)@ == after_begin_connect(old(self)@, server_id@, host@, port, username@, now),
            r == (if is_live(old(self)@, server_id@) {
                ConnectStep::AlreadyConnected(old(self)@[server_id@].transport->Some_0)
            } else {
                ConnectStep::Authenticate
            }),
    {
        match self.find(&server_id) {
            Some(i) => {
                if self.sessions[i].state == SessionState::Connected {
                    if let Some(h) = self.sessions[i].transport {
                        return ConnectStep::AlreadyConnected(h);
                    }
                }
                let _stale = self.take(i);
            },
            None => {},
        }
        let s = Session {
            server_id,
            host,
            port,
            username,
            state: SessionState::Connecting,
            transport: None,
            last_error: None,
            last_activity_at: now,
            failed_attempts: 0,
        };
        self.store(s);
        proof {
            assert(self@ =~= after_begin_connect(old(self)@, server_id@, host@, port, username@, now));
        }
        ConnectStep::Authenticate
    }

    /// Second half of `connect`: authentication reported `outcome`. A connecting
    /// session becomes `Connected` with the new transport, or `Failed` with the
    /// cause, which is returned. Without a connecting session nothing changes
    /// and the result is `NotConnected`.
    pub fn finish_connect(
        &mut self,
        server_id: &String,
        outcome: Result<u64, ErrorKind>,
        now: u64,
    ) -> (r: Result<u64, ErrorKind>)
        requires
            old(self).wf(),
        ensures
            final(self).wf(),
            final(self)@ == after_finish_connect(old(self)@, server_id@, outcome, now),
            r == finish_connect_spec(old(self)@, server_id@, outcome),
    {
        match self.find(server_id) {
            None => Err(ErrorKind::NotConnected),
            Some(i) => {
                if self.sessions[i].state != SessionState::Connecting {
                    return Err(ErrorKind::NotConnected);
                }
                let mut s = self.take(i);
                match outcome {
                    Ok(h) => {
                        s.state = SessionState::Connected;
                        s.transport = Some(h);
                        s.last_error = None;
                        s.failed_attempts = 0;
                        s.last_activity_at = now;
                    },
                    Err(e) => {
                        s.state = SessionState::Failed;
                        s.transport = None;
                        s.last_error = Some(e);
                        s.failed_attempts = 0;
                    },
                }
                self.store(s);
                proof {
                    assert(self@ =~= after_finish_connect(old(self)@, server_id@, outcome, now));
                }
                outcome
            },
        }
    }

    /// Removes the session for `server_id`, handing back the transport the
    /// caller must close. Absent sessions are a no-op.
    pub fn disconnect(&mut self, server_id: &String) -> (r: Option<u64>)
        requires
            old(self).wf(),
        ensures
            final(self).wf(),
            final(self)@ == old(self)@.remove(server_id@),
            r == (if old(self)@.contains_key(server_id@) {
                old(self)@[server_id@].transport
            } else {
                None
            }),
    {
        match self.find(server_id) {
            None => {
                proof {
                    assert(self@ =~= old(self)@.remove(server_id@));
                }
                None
            },
            Some(i) => {
                let s = self.take(i);
                s.transport
            },
        }
    }

    /// Notes that the session was used at `now`, if it is live.
    pub fn record_activity(&mut self, server_id: &String, now: u64)
        requires
            old(self).wf(),
        ensures
            final(self).wf(),
            final(self)@ == (if is_live(old(self)@, server_id@) {
                old(self)@.insert(server_id@, old(self)@[server_id@].touched(now))
            } else {
                old(self)@
            }),
    {
        if let Some(i) = self.find(server_id) {
            if self.sessions[i].state == SessionState::Connected && self.sessions[i].transport.is_some() {
                let mut s = self.take(i);
                s.last_activity_at = now;
                self.store(s);
                proof {
                    assert(self@ =~= old(self)@.insert(server_id@, old(self)@[server_id@].touched(now)));
                }
            }
        }
    }

    /// A borrower saw the transport of `server_id` break: a live session is
    /// demoted to `Reconnecting` and its transport handed back to be closed.
    pub fn mark_transport_lost(&mut self, server_id: &String) -> (r: Option<u64>)
        requires
            old(self).wf(),
        ensures
            final(self).wf(),
            final(self)@ == after_transport_lost(old(self)@, server_id@),
            r == (if is_live(old(self)@, server_id@) {
                old(self)@[server_id@].transport
            } else {
                None
            }),
    {
        if let Some(i) = self.find(server_id) {
            if self.sessions[i].state == SessionState::Connected && self.sessions[i].transport.is_some() {
                let mut s = self.take(i);
                let stale = s.transport;
                s.state = SessionState::Reconnecting;
                s.transport = None;
                s.last_error = Some(ErrorKind::TransportLost);
                s.failed_attempts = 0;
                self.store(s);
                proof {
                    assert(self@ =~= after_transport_lost(old(self)@, server_id@));
                }
                return stale;
            }
        }
        None
    }

    /// Starts a forced re-authentication of `server_id` with its last-known
    /// parameters: the session moves to `Reconnecting` with a fresh retry budget.
    pub fn begin_reconnect(&mut self, server_id: &String) -> (r: Result<ReconnectTarget, ErrorKind>)
        requires
            old(self).wf(),
        ensures
            final(self).wf(),
            final(self)@ == after_begin_reconnect(old(self)@, server_id@),
            old(self)@.contains_key(server_id@) <==> r is Ok,
            r is Err ==> r == Err::<ReconnectTarget, ErrorKind>(ErrorKind::NotConnected),
            r matches Ok(t) ==> t.host@ == old(self)@[server_id@].host && t.port == old(self)@[server_id@].port
                && t.username@ == old(self)@[server_id@].username
                && t.stale_transport == old(self)@[server_id@].transport,
    {
        match self.find(server_id) {
            None => {
                Err(ErrorKind::NotConnected)
            },
            Some(i) => {
                let mut s = self.take(i);
                let t = ReconnectTarget {
                    host: s.host.clone(),
                    port: s.port,
                    username: s.username.clone(),
                    stale_transport: s.transport,
                };
                s.state = SessionState::Reconnecting;
                s.transport = None;
                s.failed_attempts = 0;
                self.store(s);
                proof {
                    assert(self@ =~= after_begin_reconnect(old(self)@, server_id@));
                }
                Ok(t)
            },
        }
    }

    /// A reconnection attempt of `server_id` failed with `e`. Until the budget
    /// of attempts is spent the caller is told how long to back off; the attempt
    /// that spends it moves the session to `Failed`.
    pub fn reconnect_failed(&mut self, server_id: &String, e: ErrorKind) -> (r: ReconnectDecision)
        requires
            old(self).wf(),
        ensures
            final(self).wf(),
            final(self)@ == after_reconnect_failed(old(self)@, server_id@, e),
            r == reconnect_decision_spec(old(self)@, server_id@),
    {
        match self.find(server_id) {
            None => ReconnectDecision::GiveUp,
            Some(i) => {
                if self.sessions[i].state != SessionState::Reconnecting
                    || self.sessions[i].failed_attempts >= MAX_RECONNECT_ATTEMPTS {
                    return ReconnectDecision::GiveUp;
                }
                let mut s = self.take(i);
                let failures = s.failed_attempts + 1;
                s.failed_attempts = failures;
                s.last_error = Some(e);
                if failures >= MAX_RECONNECT_ATTEMPTS {
                    s.state = SessionState::Failed;
                    self.store(s);
                    proof {
                        assert(self@ =~= after_reconnect_failed(old(self)@, server_id@, e));
                    }
                    ReconnectDecision::GiveUp
                } else {
                    self.store(s);
                    proof {
                        assert(self@ =~= after_reconnect_failed(old(self)@, server_id@, e));
                    }
                    ReconnectDecision::Retry(backoff_delay_ms(failures))
                }
            },
        }
    }

    /// A reconnection attempt of `server_id` succeeded with transport `h`.
    /// Without a reconnecting session nothing changes, and the caller must close `h`.
    pub fn reconnect_succeeded(&mut self, server_id: &String, h: u64, now: u64) -> (r: Result<u64, ErrorKind>)
        requires
            old(self).wf(),
        ensures
            final(self).wf(),
            final(self)@ == after_reconnect_succeeded(old(self)@, server_id@, h, now),
            r == (if old(self)@.contains_key(server_id@)
                && old(self)@[server_id@].state == SessionState::Reconnecting {
                Ok::<u64, ErrorKind>(h)
            } else {
                Err(ErrorKind::NotConnected)
            }),
    {
        match self.find(server_id) {
            None => Err(ErrorKind::NotConnected),
            Some(i) => {
                if self.sessions[i].state != SessionState::Reconnecting {
                    return Err(ErrorKind::NotConnected);
                }
                let mut s = self.take(i);
                s.state = SessionState::Connected;
                s.transport = Some(h);
                s.last_error = None;
                s.failed_attempts = 0;
                s.last_activity_at = now;
                self.store(s);
                proof {
                    assert(self@ =~= after_reconnect_succeeded(old(self)@, server_id@, h, now));
                }
                Ok(h)
            },
        }
    }

    /// The connection parameters of the session for `server_id`, if any.
    pub fn connection(&self, server_id: &String) -> (r: Option<SshConnection>)
        requires
            self.wf(),
        ensures
            r is Some <==> self@.contains_key(server_id@),
            r matches Some(c) ==> c.server_id@ == server_id@ && c.host@ == self@[server_id@].host
                && c.port == self@[server_id@].port && c.username@ == self@[server_id@].username,
    {
        match self.find(server_id) {
            None => None,
            Some(i) => {
                let s = &self.sessions[i];
                Some(
                    SshConnection {
                        server_id: s.server_id.clone(),
                        host: s.host.clone(),
                        port: s.port,
                        username: s.username.clone(),
                    },
                )
            },
        }
    }

    /// How many stored sessions carry `server_id`: never more than one.
    pub fn sessions_for(&self, server_id: &String) -> (r: usize)
        requires
            self.wf(),
        ensures
            r <= 1,
            r == 1 <==> self@.contains_key(server_id@),
    {
        let mut n: usize = 0;
        let mut i: usize = 0;
        while i < self.sessions.len()
            invariant
                self.wf(),
                i <= self.sessions@.len(),
                n <= 1,
                n == 0 <==> forall|j: int| 0 <= j < i ==> self.sessions@[j].server_id@ != server_id@,
                n == 1 ==> exists|j: int| 0 <= j < i && self.sessions@[j].server_id@ == server_id@,
            decreases self.sessions@.len() - i,
        {
            if self.sessions[i].server_id == *server_id {
                if n == 1 {
                    let ghost j = choose|j: int| 0 <= j < i && self.sessions@[j].server_id@ == server_id@;
                    assert(ids_unique(self.sessions@));
                    assert(false);
                }
                n = 1;
            }
            i = i + 1;
        }
        proof {
            if n == 1 {
                let j = choose|j: int| 0 <= j < i && self.sessions@[j].server_id@ == server_id@;
                lemma_lookup(self.sessions@, j);
            }
        }
        n
    }
}


/// In a well-formed registry each session is filed under its own identifier
/// and holds a transport exactly while it is connected.
pub proof fn lemma_registry_consistent(r: &SessionRegistry)
    requires
        r.wf(),
    ensures
        forall|k: Seq<char>| #[trigger]
            r@.contains_key(k) ==> r@[k].server_id == k && r@[k].inv(),
{
}
} // verus!
