use vstd::prelude::*;

use crate::error::ErrorKind;
use crate::files::{chunk_sum, progress_after, TransferProgress};
use crate::registry::{
    after_begin_connect, after_begin_reconnect, after_finish_connect, finish_connect_spec, after_reconnect_failed,
    after_transport_lost, is_live, resolve_spec, SessionMap,
};
use crate::session::{SessionState, MAX_RECONNECT_ATTEMPTS};

verus! {

/// A whole `connect`: `begin_connect`, then, when it asks for authentication,
/// `finish_connect` with what authentication reported. Gives the new model
/// and the transport of the session (or the failure).
pub open spec fn connect_spec(
    m: SessionMap,
    id: Seq<char>,
    host: Seq<char>,
    port: u16,
    username: Seq<char>,
    auth: Result<u64, ErrorKind>,
    now: u64,
) -> (SessionMap, Result<u64, ErrorKind>) {
    if is_live(m, id) {
        (m, Ok(m[id].transport->Some_0))
    } else {
        let m0 = after_begin_connect(m, id, host, port, username, now);
        (after_finish_connect(m0, id, auth, now), finish_connect_spec(m0, id, auth))
    }
}

/// Connecting twice with no disconnect between yields the same session: the
/// second connect changes nothing and returns the first one's transport,
/// whatever authentication would have reported.
pub proof fn lemma_connect_idempotent(
    m: SessionMap,
    id: Seq<char>,
    host: Seq<char>,
    port: u16,
    username: Seq<char>,
    h: u64,
    now: u64,
    host2: Seq<char>,
    port2: u16,
    username2: Seq<char>,
    auth2: Result<u64, ErrorKind>,
    later: u64,
)
    ensures
        ({
            let (m1, r1) = connect_spec(m, id, host, port, username, Ok(h), now);
            let (m2, r2) = connect_spec(m1, id, host2, port2, username2, auth2, later);
            &&& r1 is Ok
            &&& is_live(m1, id)
            &&& m2 == m1
            &&& r2 == r1
            &&& resolve_spec(m1, id) == r1
        }),
{
}

/// Disconnecting an identifier that has no session changes nothing.
pub proof fn lemma_disconnect_absent_is_noop(m: SessionMap, id: Seq<char>)
    requires
        !m.contains_key(id),
    ensures
        m.remove(id) == m,
{
    assert(m.remove(id) =~= m);
}

/// Without a session, execution is refused with `NotConnected`.
pub proof fn lemma_execute_without_session(m: SessionMap, id: Seq<char>)
    requires
        !m.contains_key(id),
    ensures
        resolve_spec(m, id) == Err::<u64, ErrorKind>(ErrorKind::NotConnected),
{
}

/// Three failed reconnection attempts leave the session `Failed`, and a
/// command on it is then refused at once with an error that calls for a
/// reconnect.
pub proof fn lemma_reconnect_budget_exhausted(
    m: SessionMap,
    id: Seq<char>,
    e1: ErrorKind,
    e2: ErrorKind,
    e3: ErrorKind,
)
    requires
        m.contains_key(id),
    ensures
        ({
            let m0 = after_begin_reconnect(m, id);
            let m3 = after_reconnect_failed(
                after_reconnect_failed(after_reconnect_failed(m0, id, e1), id, e2),
                id,
                e3,
            );
            &&& m3.contains_key(id)
            &&& m3[id].state == SessionState::Failed
            &&& m3[id].last_error == Some(e3)
            &&& resolve_spec(m3, id) == Err::<u64, ErrorKind>(ErrorKind::NotConnected)
        }),
{
    assert(MAX_RECONNECT_ATTEMPTS == 3);
}

/// A transport failure on one session leaves every other session as it was.
pub proof fn lemma_transport_loss_is_local(m: SessionMap, id: Seq<char>, other: Seq<char>)
    requires
        other != id,
    ensures
        after_transport_lost(m, id).contains_key(other) == m.contains_key(other),
        m.contains_key(other) ==> after_transport_lost(m, id)[other] == m[other],
{
}

/// A transfer interrupted after chunks adding up to `N` bytes reports `N`.
pub proof fn lemma_interrupted_transfer_counts(p: TransferProgress, chunks: Seq<u64>)
    requires
        p.transferred + chunk_sum(chunks) <= u64::MAX,
    ensures
        progress_after(p, chunks).transferred == p.transferred + chunk_sum(chunks),
        progress_after(p, chunks).total == p.total,
    decreases chunks.len(),
{
    if chunks.len() > 0 {
        lemma_interrupted_transfer_counts(p, chunks.drop_last());
    }
}

} // verus!
