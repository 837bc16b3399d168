use vstd::prelude::*;

use crate::error::ErrorKind;
use crate::registry::{after_transport_lost, is_live, resolve_spec, SessionRegistry};

verus! {

/// What one command execution produced.
pub struct CommandResult {
    pub stdout: String,
    pub stderr: String,
    pub exit_code: i32,
    pub duration_ms: u64,
}

/// How an exec channel ended, as reported by the transport.
pub enum ExecOutcome {
    /// The remote process exited.
    Completed(CommandResult),
    /// The timeout elapsed; the channel was closed, the transport is intact.
    TimedOut,
    /// The transport itself failed.
    TransportFailed,
}

/// Resolves the transport on which a command for `server_id` may open its
/// channel. Fails at once, without waiting, when there is no live session.
pub fn begin_execute(registry: &SessionRegistry, server_id: &String) -> (r: Result<u64, ErrorKind>)
    requires
        registry.wf(),
    ensures
        r == resolve_spec(registry@, server_id@),
{
    registry.resolve(server_id)
}

/// Settles an execution on `server_id` that ended with `outcome`. A completed
/// command is returned as it came and the session's activity time moves to
/// `now`; a timeout fails with `CommandTimeout` and leaves the session as it
/// was; a transport failure fails with `TransportLost` and demotes the session
/// to `Reconnecting`. Commands are never run again here. The second result is
/// a transport handle the caller must close.
pub fn finish_execute(
    registry: &mut SessionRegistry,
    server_id: &String,
    outcome: ExecOutcome,
    now: u64,
) -> (r: (Result<CommandResult, ErrorKind>, Option<u64>))
    requires
        old(registry).wf(),
    ensures
        final(registry).wf(),
        match outcome {
            ExecOutcome::Completed(c) => {
                &&& r.0 == Ok::<CommandResult, ErrorKind>(c)
                &&& r.1 is None
                &&& final(registry)@ == (if is_live(old(registry)@, server_id@) {
                    old(registry)@.insert(server_id@, old(registry)@[server_id@].touched(now))
                } else {
                    old(registry)@
                })
            },
            ExecOutcome::TimedOut => {
                &&& r.0 == Err::<CommandResult, ErrorKind>(ErrorKind::CommandTimeout)
                &&& r.1 is None
                &&& final(registry)@ == old(registry)@
            },
            ExecOutcome::TransportFailed => {
                &&& r.0 == Err::<CommandResult, ErrorKind>(ErrorKind::TransportLost)
                &&& r.1 == (if is_live(old(registry)@, server_id@) {
                    old(registry)@[server_id@].transport
                } else {
                    None
                })
                &&& final(registry)@ == after_transport_lost(old(registry)@, server_id@)
            },
        },
{
    match outcome {
        ExecOutcome::Completed(c) => {
            registry.record_activity(server_id, now);
            (Ok(c), None)
        },
        ExecOutcome::TimedOut => (Err(ErrorKind::CommandTimeout), None),
        ExecOutcome::TransportFailed => {
            let stale = registry.mark_transport_lost(server_id);
            (Err(ErrorKind::TransportLost), stale)
        },
    }
}

} // verus!
