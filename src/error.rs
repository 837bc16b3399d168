use vstd::prelude::*;

verus! {

/// The kinds of failure the engine reports, each machine-distinguishable.
#[derive(Debug, Clone, Copy, PartialEq, Eq, Structural)]
pub enum ErrorKind {
    AuthenticationFailed,
    HostUnreachable,
    NotConnected,
    TransportLost,
    CommandTimeout,
    PathNotFound,
    PermissionDenied,
    AlreadyExists,
    InvalidMode,
    TransferInterrupted,
    /// Output of a diagnostic tool that could not be read; never fatal.
    ParseFailure,
    /// A remote failure with no more specific kind, with the status code it came with.
    RemoteFailure(u32),
}

/// Whether the presentation layer should offer a reconnect for this error.
pub fn offers_reconnect(k: ErrorKind) -> (r: bool)
    ensures
        r <==> (k == ErrorKind::TransportLost || k == ErrorKind::NotConnected),
{
    match k {
        ErrorKind::TransportLost | ErrorKind::NotConnected => true,
        _ => false,
    }
}


/// The human-readable text shown with each kind of error.
pub open spec fn error_text(k: ErrorKind) -> Seq<char> {
    match k {
        ErrorKind::AuthenticationFailed => "认证失败"@,
        ErrorKind::HostUnreachable => "主机不可达"@,
        ErrorKind::NotConnected => "服务器未连接"@,
        ErrorKind::TransportLost => "连接已断开"@,
        ErrorKind::CommandTimeout => "命令执行超时"@,
        ErrorKind::PathNotFound => "路径不存在"@,
        ErrorKind::PermissionDenied => "权限不足"@,
        ErrorKind::AlreadyExists => "路径已存在"@,
        ErrorKind::InvalidMode => "无效的权限模式"@,
        ErrorKind::TransferInterrupted => "传输中断"@,
        ErrorKind::ParseFailure => "输出格式无法解析"@,
        ErrorKind::RemoteFailure(_) => "远程操作失败"@,
    }
}

/// The message to show for `k`.
pub fn describe(k: ErrorKind) -> (r: String)
    ensures
        r@ == error_text(k),
{
    let s = match k {
        ErrorKind::AuthenticationFailed => "认证失败",
        ErrorKind::HostUnreachable => "主机不可达",
        ErrorKind::NotConnected => "服务器未连接",
        ErrorKind::TransportLost => "连接已断开",
        ErrorKind::CommandTimeout => "命令执行超时",
        ErrorKind::PathNotFound => "路径不存在",
        ErrorKind::PermissionDenied => "权限不足",
        ErrorKind::AlreadyExists => "路径已存在",
        ErrorKind::InvalidMode => "无效的权限模式",
        ErrorKind::TransferInterrupted => "传输中断",
        ErrorKind::ParseFailure => "输出格式无法解析",
        ErrorKind::RemoteFailure(_) => "远程操作失败",
    };
    String::from_str(s)
}

/// `message` is the text for `error`, or `ok_text` on success.
pub open spec fn message_for(message: Option<String>, error: Option<ErrorKind>, ok_text: Seq<char>) -> bool {
    match error {
        Some(k) => message matches Some(m) && m@ == error_text(k),
        None => message matches Some(m) && m@ == ok_text,
    }
}

/// The message of a response: the text for `error`, or `ok_text` on success.
pub fn response_message(error: Option<ErrorKind>, ok_text: &str) -> (r: Option<String>)
    ensures
        message_for(r, error, ok_text@),
{
    match error {
        Some(k) => Some(describe(k)),
        None => Some(String::from_str(ok_text)),
    }
}

} // verus!
