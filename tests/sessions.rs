use myssh::error::{offers_reconnect, ErrorKind};
use myssh::executor::{begin_execute, finish_execute, CommandResult, ExecOutcome};
use myssh::registry::{ConnectStep, ReconnectDecision, SessionRegistry};
use myssh::session::{backoff_delay_ms, SessionState};
use myssh::ssh_commands::{reconnect_response, reconnect_terminal_begin, ReconnectTerminalParams};

fn s(x: &str) -> String {
    x.to_string()
}

fn connected(reg: &mut SessionRegistry, id: &str, handle: u64) {
    let step = reg.begin_connect(s(id), s("10.0.0.1"), 22, s("root"), 1);
    assert_eq!(step, ConnectStep::Authenticate);
    assert_eq!(reg.finish_connect(&s(id), Ok(handle), 2), Ok(handle));
}

#[test]
fn connect_twice_yields_same_session() {
    let mut reg = SessionRegistry::new();
    connected(&mut reg, "web1", 7);
    let again = reg.begin_connect(s("web1"), s("other"), 2222, s("bob"), 5);
    assert_eq!(again, ConnectStep::AlreadyConnected(7));
    assert_eq!(reg.sessions_for(&s("web1")), 1);
    let c = reg.connection(&s("web1")).unwrap();
    assert_eq!(c.host, "10.0.0.1");
    assert_eq!(c.port, 22);
    assert_eq!(c.username, "root");
    assert_eq!(reg.resolve(&s("web1")), Ok(7));
}

#[test]
fn failed_connect_then_retry_keeps_one_session() {
    let mut reg = SessionRegistry::new();
    reg.begin_connect(s("a"), s("h"), 22, s("u"), 1);
    assert_eq!(reg.finish_connect(&s("a"), Err(ErrorKind::AuthenticationFailed), 2), Err(ErrorKind::AuthenticationFailed));
    assert_eq!(reg.resolve(&s("a")), Err(ErrorKind::NotConnected));
    assert_eq!(reg.begin_connect(s("a"), s("h"), 22, s("u"), 3), ConnectStep::Authenticate);
    assert_eq!(reg.finish_connect(&s("a"), Err(ErrorKind::HostUnreachable), 4), Err(ErrorKind::HostUnreachable));
    assert_eq!(reg.sessions_for(&s("a")), 1);
}

#[test]
fn finish_connect_without_begin_is_not_connected() {
    let mut reg = SessionRegistry::new();
    assert_eq!(reg.finish_connect(&s("x"), Ok(1), 1), Err(ErrorKind::NotConnected));
    assert_eq!(reg.sessions_for(&s("x")), 0);
}

#[test]
fn disconnect_absent_is_noop() {
    let mut reg = SessionRegistry::new();
    connected(&mut reg, "keep", 3);
    assert_eq!(reg.disconnect(&s("ghost")), None);
    assert_eq!(reg.disconnect(&s("ghost")), None);
    assert_eq!(reg.resolve(&s("keep")), Ok(3));
}

#[test]
fn disconnect_returns_transport_and_removes() {
    let mut reg = SessionRegistry::new();
    connected(&mut reg, "a", 11);
    assert_eq!(reg.disconnect(&s("a")), Some(11));
    assert_eq!(reg.sessions_for(&s("a")), 0);
    assert!(reg.connection(&s("a")).is_none());
}

#[test]
fn execute_without_session_is_not_connected() {
    let reg = SessionRegistry::new();
    assert_eq!(begin_execute(&reg, &s("nobody")), Err(ErrorKind::NotConnected));
}

#[test]
fn execute_timeout_keeps_session_connected() {
    let mut reg = SessionRegistry::new();
    connected(&mut reg, "a", 5);
    let (r, stale) = finish_execute(&mut reg, &s("a"), ExecOutcome::TimedOut, 9);
    assert!(matches!(r, Err(ErrorKind::CommandTimeout)));
    assert_eq!(stale, None);
    assert_eq!(reg.resolve(&s("a")), Ok(5));
}

#[test]
fn execute_transport_failure_demotes_session() {
    let mut reg = SessionRegistry::new();
    connected(&mut reg, "a", 5);
    connected(&mut reg, "b", 6);
    let (r, stale) = finish_execute(&mut reg, &s("a"), ExecOutcome::TransportFailed, 9);
    assert!(matches!(r, Err(ErrorKind::TransportLost)));
    assert_eq!(stale, Some(5));
    assert_eq!(reg.resolve(&s("a")), Err(ErrorKind::TransportLost));
    assert_eq!(reg.resolve(&s("b")), Ok(6));
}

#[test]
fn execute_completed_returns_output() {
    let mut reg = SessionRegistry::new();
    connected(&mut reg, "a", 5);
    let c = CommandResult { stdout: s("ok\n"), stderr: s(""), exit_code: 0, duration_ms: 12 };
    let (r, stale) = finish_execute(&mut reg, &s("a"), ExecOutcome::Completed(c), 9);
    let c = r.ok().unwrap();
    assert_eq!(c.stdout, "ok\n");
    assert_eq!(c.exit_code, 0);
    assert_eq!(c.duration_ms, 12);
    assert_eq!(stale, None);
}

#[test]
fn reconnect_fails_after_three_attempts() {
    let mut reg = SessionRegistry::new();
    connected(&mut reg, "db", 1);
    let t = reg.begin_reconnect(&s("db")).ok().unwrap();
    assert_eq!(t.host, "10.0.0.1");
    assert_eq!(t.stale_transport, Some(1));
    assert_eq!(reg.reconnect_failed(&s("db"), ErrorKind::HostUnreachable), ReconnectDecision::Retry(500));
    assert_eq!(reg.reconnect_failed(&s("db"), ErrorKind::HostUnreachable), ReconnectDecision::Retry(1000));
    assert_eq!(reg.reconnect_failed(&s("db"), ErrorKind::HostUnreachable), ReconnectDecision::GiveUp);
    assert_eq!(begin_execute(&reg, &s("db")), Err(ErrorKind::NotConnected));
    assert!(offers_reconnect(ErrorKind::NotConnected));
    assert_eq!(reg.reconnect_succeeded(&s("db"), 2, 10), Err(ErrorKind::NotConnected));
}

#[test]
fn reconnect_after_failure_recovers() {
    let mut reg = SessionRegistry::new();
    connected(&mut reg, "db", 1);
    reg.begin_reconnect(&s("db")).ok().unwrap();
    assert_eq!(reg.reconnect_failed(&s("db"), ErrorKind::HostUnreachable), ReconnectDecision::Retry(500));
    assert_eq!(reg.reconnect_succeeded(&s("db"), 4, 10), Ok(4));
    assert_eq!(reg.resolve(&s("db")), Ok(4));
}

#[test]
fn reconnect_unknown_is_not_connected() {
    let mut reg = SessionRegistry::new();
    assert!(matches!(reg.begin_reconnect(&s("none")), Err(ErrorKind::NotConnected)));
    assert_eq!(reg.reconnect_failed(&s("none"), ErrorKind::HostUnreachable), ReconnectDecision::GiveUp);
}

#[test]
fn transport_lost_mark_is_local() {
    let mut reg = SessionRegistry::new();
    connected(&mut reg, "a", 1);
    connected(&mut reg, "b", 2);
    assert_eq!(reg.mark_transport_lost(&s("a")), Some(1));
    assert_eq!(reg.mark_transport_lost(&s("a")), None);
    assert_eq!(reg.resolve(&s("b")), Ok(2));
}

#[test]
fn backoff_doubles() {
    assert_eq!(backoff_delay_ms(1), 500);
    assert_eq!(backoff_delay_ms(2), 1000);
}

#[test]
fn reconnect_offer_only_for_connection_errors() {
    assert!(offers_reconnect(ErrorKind::TransportLost));
    assert!(!offers_reconnect(ErrorKind::PathNotFound));
    assert!(!offers_reconnect(ErrorKind::CommandTimeout));
    let _ = SessionState::Failed;
}

#[test]
fn reconnect_terminal_hands_back_last_parameters() {
    let mut reg = SessionRegistry::new();
    connected(&mut reg, "db", 9);
    let t = reconnect_terminal_begin(&mut reg, &ReconnectTerminalParams { server_id: s("db") }).ok().unwrap();
    assert_eq!(t.host, "10.0.0.1");
    assert_eq!(t.port, 22);
    assert_eq!(t.username, "root");
    assert_eq!(t.stale_transport, Some(9));
    let r = reconnect_response(Ok(10));
    assert!(r.success);
    assert_eq!(r.message.as_deref(), Some("重连成功"));
    assert!(matches!(reconnect_terminal_begin(&mut reg, &ReconnectTerminalParams { server_id: s("zz") }), Err(ErrorKind::NotConnected)));
}
