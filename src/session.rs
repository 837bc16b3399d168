use vstd::prelude::*;

use crate::error::ErrorKind;

verus! {

/// How many reconnection attempts may fail before a session is declared `Failed`.
pub const MAX_RECONNECT_ATTEMPTS: u32 = 3;

/// The delay before the second reconnection attempt; each later delay doubles.
pub const BACKOFF_BASE_MS: u64 = 500;

/// Lifecycle of one managed connection.
#[derive(Debug, Clone, Copy, PartialEq, Eq, Structural)]
pub enum SessionState {
    Disconnected,
    Connecting,
    Connected,
    Reconnecting,
    Failed,
}

/// One managed connection to one remote host. The transport itself lives with
/// the caller; the session holds the handle that names it.
pub struct Session {
    pub server_id: String,
    pub host: String,
    pub port: u16,
    pub username: String,
    pub state: SessionState,
    pub transport: Option<u64>,
    pub last_error: Option<ErrorKind>,
    pub last_activity_at: u64,
    pub failed_attempts: u32,
}

/// The mathematical value of a `Session`.
pub struct SessionView {
    pub server_id: Seq<char>,
    pub host: Seq<char>,
    pub port: u16,
    pub username: Seq<char>,
    pub state: SessionState,
    pub transport: Option<u64>,
    pub last_error: Option<ErrorKind>,
    pub last_activity_at: u64,
    pub failed_attempts: u32,
}

impl View for Session {
    type V = SessionView;

    open spec fn view(&self) -> SessionView {
        SessionView {
            server_id: self.server_id@,
            host: self.host@,
            port: self.port,
            username: self.username@,
            state: self.state,
            transport: self.transport,
            last_error: self.last_error,
            last_activity_at: self.last_activity_at,
            failed_attempts: self.failed_attempts,
        }
    }
}

impl SessionView {
    /// A transport handle is held exactly while the session is connected, and
    /// the failure count never passes the retry budget.
    pub open spec fn inv(self) -> bool {
        &&& (self.transport is Some <==> self.state == SessionState::Connected)
        &&& self.failed_attempts <= MAX_RECONNECT_ATTEMPTS
    }

    /// The same session moved to `state`, holding `transport`.
    pub open spec fn moved(
        self,
        state: SessionState,
        transport: Option<u64>,
        last_error: Option<ErrorKind>,
        failed_attempts: u32,
    ) -> SessionView {
        SessionView { state, transport, last_error, failed_attempts, ..self }
    }

    /// The same session, last used at `now`.
    pub open spec fn touched(self, now: u64) -> SessionView {
        SessionView { last_activity_at: now, ..self }
    }
}

/// `2^n`.
pub open spec fn pow2(n: nat) -> nat
    decreases n,
{
    if n == 0 {
        1
    } else {
        2 * pow2((n - 1) as nat)
    }
}

/// The wait before the next attempt once `failures` attempts have failed.
pub open spec fn backoff_spec(failures: nat) -> nat {
    (BACKOFF_BASE_MS * pow2((failures - 1) as nat)) as nat
}

/// Bounded exponential backoff: 500 ms after the first failure, doubling after each.
pub fn backoff_delay_ms(failures: u32) -> (r: u64)
    requires
        1 <= failures < MAX_RECONNECT_ATTEMPTS,
    ensures
        r == backoff_spec(failures as nat),
{
    let mut r: u64 = BACKOFF_BASE_MS;
    let mut k: u32 = 1;
    while k < failures
        invariant
            1 <= k <= failures < MAX_RECONNECT_ATTEMPTS,
            r == BACKOFF_BASE_MS * pow2((k - 1) as nat),
        decreases failures - k,
    {
        assert(pow2(k as nat) == 2 * pow2((k - 1) as nat));
        r = r * 2;
        k = k + 1;
    }
    r
}

} // verus!
