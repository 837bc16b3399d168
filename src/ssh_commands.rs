use vstd::prelude::*;

use crate::error::{message_for, response_message, ErrorKind};
use crate::executor::{begin_execute, CommandResult};
use crate::registry::{
    after_begin_connect, after_begin_reconnect, after_finish_connect, finish_connect_spec, is_live,
    resolve_spec, ConnectStep, ReconnectTarget, SessionRegistry,
};

verus! {

pub struct ConnectSshParams {
    pub server_id: String,
    pub host: String,
    pub port: u16,
    pub username: String,
    pub password: Option<String>,
    pub key_path: Option<String>,
}

pub struct ConnectSshResult {
    pub success: bool,
    pub connection_id: String,
    pub message: Option<String>,
    pub error: Option<ErrorKind>,
}

pub struct DisconnectSshParams {
    pub server_id: String,
}

pub struct DisconnectSshResult {
    pub success: bool,
    pub message: Option<String>,
}

pub struct ExecuteSshCommandParams {
    pub server_id: String,
    pub command: String,
}

pub struct ExecuteSshCommandResult {
    pub output: String,
    pub exit_code: i32,
}

pub struct ReconnectTerminalParams {
    pub server_id: String,
}

pub struct ReconnectTerminalResult {
    pub success: bool,
    pub message: Option<String>,
    pub error: Option<ErrorKind>,
}

/// First step of `connect_ssh_server`: resolves an existing connection, or
/// registers a connecting session that the caller must authenticate.
pub fn connect_ssh_server_begin(
    registry: &mut SessionRegistry,
    params: &ConnectSshParams,
    now: u64,
) -> (r: ConnectStep)
    requires
        old(registry).wf(),
    ensures
        final(registry).wf(),
        final(registry)@ == after_begin_connect(
            old(registry)@,
            params.server_id@,
            params.host@,
            params.port,
            params.username@,
            now,
        ),
        r == (if is_live(old(registry)@, params.server_id@) {
            ConnectStep::AlreadyConnected(old(registry)@[params.server_id@].transport->Some_0)
        } else {
            ConnectStep::Authenticate
        }),
{
    registry.begin_connect(
        params.server_id.clone(),
        params.host.clone(),
        params.port,
        params.username.clone(),
        now,
    )
}

/// The response to a connect whose session transport (or failure) is `outcome`.
pub fn connect_response(server_id: &String, outcome: Result<u64, ErrorKind>) -> (r: ConnectSshResult)
    ensures
        r.success == outcome is Ok,
        r.connection_id@ == server_id@,
        r.error == (match outcome {
            Ok(_) => None,
            Err(k) => Some(k),
        }),
        message_for(r.message, r.error, "连接成功"@),
{
    let error = match outcome {
        Ok(_) => None,
        Err(k) => Some(k),
    };
    ConnectSshResult {
        success: outcome.is_ok(),
        connection_id: server_id.clone(),
        message: response_message(error, "连接成功"),
        error,
    }
}

/// Last step of `connect_ssh_server`: authentication reported `auth`.
pub fn connect_ssh_server_finish(
    registry: &mut SessionRegistry,
    params: &ConnectSshParams,
    auth: Result<u64, ErrorKind>,
    now: u64,
) -> (r: ConnectSshResult)
    requires
        old(registry).wf(),
    ensures
        final(registry).wf(),
        final(registry)@ == after_finish_connect(old(registry)@, params.server_id@, auth, now),
        r.success == finish_connect_spec(old(registry)@, params.server_id@, auth) is Ok,
        r.error == (match finish_connect_spec(old(registry)@, params.server_id@, auth) {
            Ok(_) => None,
            Err(k) => Some(k),
        }),
        r.connection_id@ == params.server_id@,
        message_for(r.message, r.error, "连接成功"@),
{
    let outcome = registry.finish_connect(&params.server_id, auth, now);
    connect_response(&params.server_id, outcome)
}

/// `disconnect_ssh_server`: removes the session, if any, and always succeeds.
/// The second result is the transport the caller must close.
pub fn disconnect_ssh_server(registry: &mut SessionRegistry, params: &DisconnectSshParams) -> (r: (
    DisconnectSshResult,
    Option<u64>,
))
    requires
        old(registry).wf(),
    ensures
        final(registry).wf(),
        final(registry)@ == old(registry)@.remove(params.server_id@),
        r.0.success,
        message_for(r.0.message, None, "断开连接成功"@),
        r.1 == (if old(registry)@.contains_key(params.server_id@) {
            old(registry)@[params.server_id@].transport
        } else {
            None
        }),
{
    let stale = registry.disconnect(&params.server_id);
    (DisconnectSshResult { success: true, message: response_message(None, "断开连接成功") }, stale)
}

/// First step of `execute_ssh_command`: the transport to open the exec channel
/// on, or at once `NotConnected` (or `TransportLost` while reconnecting).
pub fn execute_ssh_command_begin(registry: &SessionRegistry, params: &ExecuteSshCommandParams) -> (r:
    Result<u64, ErrorKind>)
    requires
        registry.wf(),
    ensures
        r == resolve_spec(registry@, params.server_id@),
{
    begin_execute(registry, &params.server_id)
}

/// The response to a completed command: its standard output followed by its
/// standard error, and its exit code.
pub fn execute_response(c: &CommandResult) -> (r: ExecuteSshCommandResult)
    ensures
        r.output@ == c.stdout@ + c.stderr@,
        r.exit_code == c.exit_code,
{
    let mut output = c.stdout.clone();
    output.append(c.stderr.as_str());
    ExecuteSshCommandResult { output, exit_code: c.exit_code }
}

/// First step of `reconnect_terminal`: the last-known parameters to
/// authenticate with again, the session now `Reconnecting`.
pub fn reconnect_terminal_begin(registry: &mut SessionRegistry, params: &ReconnectTerminalParams) -> (r:
    Result<ReconnectTarget, ErrorKind>)
    requires
        old(registry).wf(),
    ensures
        final(registry).wf(),
        final(registry)@ == after_begin_reconnect(old(registry)@, params.server_id@),
        r is Ok <==> old(registry)@.contains_key(params.server_id@),
        r is Err ==> r == Err::<ReconnectTarget, ErrorKind>(ErrorKind::NotConnected),
        r matches Ok(t) ==> t.host@ == old(registry)@[params.server_id@].host && t.port == old(
            registry,
        )@[params.server_id@].port && t.username@ == old(registry)@[params.server_id@].username
            && t.stale_transport == old(registry)@[params.server_id@].transport,
{
    registry.begin_reconnect(&params.server_id)
}

/// The response once reconnection ended with `outcome`.
pub fn reconnect_response(outcome: Result<u64, ErrorKind>) -> (r: ReconnectTerminalResult)
    ensures
        r.success == outcome is Ok,
        r.error == (match outcome {
            Ok(_) => None,
            Err(k) => Some(k),
        }),
        message_for(r.message, r.error, "重连成功"@),
{
    let error = match outcome {
        Ok(_) => None,
        Err(k) => Some(k),
    };
    ReconnectTerminalResult { success: outcome.is_ok(), message: response_message(error, "重连成功"), error }
}

} // verus!
