use vstd::prelude::*;

use crate::error::{message_for, response_message, ErrorKind};
use crate::registry::{after_transport_lost, is_live, SessionMap, SessionRegistry};
use crate::files::{
    batch_results, build_listing, entry_path, kind_spec, parse_mode, status_outcome, status_spec,
    valid_mode, octal_value, FileKind, PathResult, RawEntry, TransferFailure, TransferProgress, MODE_PERMISSION_MASK,
};

verus! {

/// One listed entry as the presentation layer receives it.
pub struct FileInfo {
    pub name: String,
    /// `file`, `directory` or `symlink`.
    pub file_type: String,
    pub size: u64,
    /// Seconds since the Unix epoch.
    pub modified: u64,
    pub permissions: u32,
    pub path: String,
}

pub struct ListRemoteDirectoryParams {
    pub server_id: String,
    pub path: String,
}

pub struct ListRemoteDirectoryResult {
    pub files: Vec<FileInfo>,
}

pub struct UploadFileParams {
    pub server_id: String,
    pub local_path: String,
    pub remote_path: String,
}

pub struct UploadFileResult {
    pub success: bool,
    pub message: Option<String>,
    pub error: Option<ErrorKind>,
    pub bytes_transferred: u64,
}

pub struct DownloadFileParams {
    pub server_id: String,
    pub remote_path: String,
    pub local_path: String,
}

pub struct DownloadFileResult {
    pub success: bool,
    pub message: Option<String>,
    pub error: Option<ErrorKind>,
    pub bytes_transferred: u64,
}

pub struct CreateDirectoryParams {
    pub server_id: String,
    pub path: String,
}

pub struct CreateDirectoryResult {
    pub success: bool,
    pub message: Option<String>,
    pub error: Option<ErrorKind>,
}

pub struct DeleteFilesParams {
    pub server_id: String,
    pub paths: Vec<String>,
}

pub struct DeleteFilesResult {
    pub success: bool,
    pub message: Option<String>,
    pub results: Vec<PathResult>,
}

pub struct RenameFileParams {
    pub server_id: String,
    pub old_path: String,
    pub new_path: String,
}

pub struct RenameFileResult {
    pub success: bool,
    pub message: Option<String>,
    pub error: Option<ErrorKind>,
}

pub struct ChangeFileModeParams {
    pub server_id: String,
    pub path: String,
    pub mode: String,
}

pub struct ChangeFileModeResult {
    pub success: bool,
    pub message: Option<String>,
    pub error: Option<ErrorKind>,
}

pub open spec fn kind_text(k: FileKind) -> Seq<char> {
    match k {
        FileKind::File => "file"@,
        FileKind::Directory => "directory"@,
        FileKind::Symlink => "symlink"@,
    }
}

fn kind_name(k: FileKind) -> (r: String)
    ensures
        r@ == kind_text(k),
{
    match k {
        FileKind::File => String::from_str("file"),
        FileKind::Directory => String::from_str("directory"),
        FileKind::Symlink => String::from_str("symlink"),
    }
}

/// The error that a remote status code carries, if any.
pub open spec fn status_error(code: u32) -> Option<ErrorKind> {
    match status_spec(code) {
        Ok(_) => None,
        Err(k) => Some(k),
    }
}

fn error_of(code: u32) -> (r: Option<ErrorKind>)
    ensures
        r == status_error(code),
{
    match status_outcome(code) {
        Ok(_) => None,
        Err(k) => Some(k),
    }
}

pub open spec fn info_matches(f: FileInfo, raw: RawEntry, dir: Seq<char>) -> bool {
    &&& f.name@ == raw.name@
    &&& f.file_type@ == kind_text(kind_spec(raw.mode))
    &&& f.size == raw.size
    &&& f.modified == raw.mtime
    &&& f.permissions == raw.mode & MODE_PERMISSION_MASK
    &&& f.path@ == entry_path(dir, raw.name@)
}

/// The response to `list_remote_directory` of `path`: the remote's status, and
/// the entries it returned, kept one for one and in order.
pub fn list_remote_directory_response(path: &String, status: u32, raw: Vec<RawEntry>) -> (r: Result<
    ListRemoteDirectoryResult,
    ErrorKind,
>)
    ensures
        status_error(status) matches Some(k) ==> r == Err::<ListRemoteDirectoryResult, ErrorKind>(k),
        status_error(status) is None ==> r is Ok,
        r matches Ok(l) ==> l.files@.len() == raw@.len() && forall|i: int|
            0 <= i < raw@.len() ==> info_matches(#[trigger] l.files@[i], raw@[i], path@),
{
    if let Some(k) = error_of(status) {
        return Err(k);
    }
    let ghost raw_v = raw@;
    let entries = build_listing(path.as_str(), raw);
    let mut files: Vec<FileInfo> = Vec::new();
    let mut i: usize = 0;
    while i < entries.len()
        invariant
            entries@.len() == raw_v.len(),
            forall|j: int| 0 <= j < entries@.len() ==> crate::files::entry_matches(#[trigger] entries@[j], raw_v[j], path@),
            i <= entries@.len(),
            files@.len() == i,
            forall|j: int| 0 <= j < i ==> info_matches(#[trigger] files@[j], raw_v[j], path@),
        decreases entries@.len() - i,
    {
        let e = &entries[i];
        assert(crate::files::entry_matches(entries@[i as int], raw_v[i as int], path@));
        files.push(
            FileInfo {
                name: e.name.clone(),
                file_type: kind_name(e.kind),
                size: e.size_bytes,
                modified: e.modified_at,
                permissions: e.permissions,
                path: e.path.clone(),
            },
        );
        i = i + 1;
    }
    Ok(ListRemoteDirectoryResult { files })
}

/// The response to an upload that moved every byte (`Ok` with the count) or
/// stopped part way.
pub fn upload_file_response(outcome: Result<u64, TransferFailure>) -> (r: UploadFileResult)
    ensures
        r.success == outcome is Ok,
        r.bytes_transferred == (match outcome {
            Ok(n) => n,
            Err(f) => f.bytes_transferred,
        }),
        r.error == (match outcome {
            Ok(_) => None,
            Err(f) => Some(f.kind),
        }),
        message_for(r.message, r.error, "上传成功"@),
{
    let (error, n) = match outcome {
        Ok(n) => (None, n),
        Err(f) => (Some(f.kind), f.bytes_transferred),
    };
    UploadFileResult {
        success: outcome.is_ok(),
        message: response_message(error, "上传成功"),
        error,
        bytes_transferred: n,
    }
}

/// The response to a download, as for an upload.
pub fn download_file_response(outcome: Result<u64, TransferFailure>) -> (r: DownloadFileResult)
    ensures
        r.success == outcome is Ok,
        r.bytes_transferred == (match outcome {
            Ok(n) => n,
            Err(f) => f.bytes_transferred,
        }),
        r.error == (match outcome {
            Ok(_) => None,
            Err(f) => Some(f.kind),
        }),
        message_for(r.message, r.error, "下载成功"@),
{
    let (error, n) = match outcome {
        Ok(n) => (None, n),
        Err(f) => (Some(f.kind), f.bytes_transferred),
    };
    DownloadFileResult {
        success: outcome.is_ok(),
        message: response_message(error, "下载成功"),
        error,
        bytes_transferred: n,
    }
}

/// The response to `create_directory`, from the remote's status code.
pub fn create_directory_response(status: u32) -> (r: CreateDirectoryResult)
    ensures
        r.success == (status_error(status) is None),
        r.error == status_error(status),
        message_for(r.message, r.error, "创建目录成功"@),
{
    let error = error_of(status);
    CreateDirectoryResult { success: error.is_none(), message: response_message(error, "创建目录成功"), error }
}

/// The response to `rename_file`, from the remote's status code.
pub fn rename_file_response(status: u32) -> (r: RenameFileResult)
    ensures
        r.success == (status_error(status) is None),
        r.error == status_error(status),
        message_for(r.message, r.error, "重命名成功"@),
{
    let error = error_of(status);
    RenameFileResult { success: error.is_none(), message: response_message(error, "重命名成功"), error }
}

/// First step of `change_file_mode`: the mode bits to apply, or `InvalidMode`
/// before anything is sent.
pub fn change_file_mode_begin(params: &ChangeFileModeParams) -> (r: Result<u32, ErrorKind>)
    ensures
        valid_mode(params.mode@) ==> r == Ok::<u32, ErrorKind>(octal_value(params.mode@) as u32),
        !valid_mode(params.mode@) ==> r == Err::<u32, ErrorKind>(ErrorKind::InvalidMode),
{
    parse_mode(params.mode.as_str())
}

/// The response to `change_file_mode`, from the remote's status code.
pub fn change_file_mode_response(status: u32) -> (r: ChangeFileModeResult)
    ensures
        r.success == (status_error(status) is None),
        r.error == status_error(status),
        message_for(r.message, r.error, "修改权限成功"@),
{
    let error = error_of(status);
    ChangeFileModeResult { success: error.is_none(), message: response_message(error, "修改权限成功"), error }
}

/// The response to `delete_files`: the call itself succeeds, and each path is
/// reported with the outcome of its own removal.
pub fn delete_files_response(paths: Vec<String>, statuses: &Vec<u32>) -> (r: DeleteFilesResult)
    requires
        paths@.len() == statuses@.len(),
    ensures
        r.success,
        message_for(r.message, None, "删除成功"@),
        r.results@.len() == paths@.len(),
        forall|i: int|
            0 <= i < paths@.len() ==> (#[trigger] r.results@[i]).path@ == paths@[i]@
                && r.results@[i].outcome == status_spec(statuses@[i]),
{
    let batch = batch_results(paths, statuses);
    DeleteFilesResult { success: true, message: response_message(None, "删除成功"), results: batch.results }
}


pub struct ChangeFileModeManyParams {
    pub server_id: String,
    pub paths: Vec<String>,
    pub mode: String,
}

pub struct ChangeFileModeManyResult {
    pub success: bool,
    pub message: Option<String>,
    pub results: Vec<PathResult>,
}

/// First step of a batch mode change: the mode bits for every path, or
/// `InvalidMode` before anything is sent.
pub fn change_file_mode_many_begin(params: &ChangeFileModeManyParams) -> (r: Result<u32, ErrorKind>)
    ensures
        valid_mode(params.mode@) ==> r == Ok::<u32, ErrorKind>(octal_value(params.mode@) as u32),
        !valid_mode(params.mode@) ==> r == Err::<u32, ErrorKind>(ErrorKind::InvalidMode),
{
    parse_mode(params.mode.as_str())
}

/// The response to a batch mode change: the call succeeds, and each path is
/// reported with the outcome of its own change.
pub fn change_file_mode_many_response(paths: Vec<String>, statuses: &Vec<u32>) -> (r:
    ChangeFileModeManyResult)
    requires
        paths@.len() == statuses@.len(),
    ensures
        r.success,
        message_for(r.message, None, "修改权限成功"@),
        r.results@.len() == paths@.len(),
        forall|i: int|
            0 <= i < paths@.len() ==> (#[trigger] r.results@[i]).path@ == paths@[i]@
                && r.results@[i].outcome == status_spec(statuses@[i]),
{
    let batch = batch_results(paths, statuses);
    ChangeFileModeManyResult {
        success: true,
        message: response_message(None, "修改权限成功"),
        results: batch.results,
    }
}

/// A session's model is unchanged by an operation on another session.
pub open spec fn others_unchanged(before: SessionMap, after: SessionMap, id: Seq<char>) -> bool {
    forall|other: Seq<char>|
        other != id ==> (#[trigger] after.contains_key(other) == before.contains_key(other) && (
        before.contains_key(other) ==> after[other] == before[other]))
}

/// Settles a transfer on `server_id` that stopped at `progress`. When the
/// transport itself was lost the session is demoted to `Reconnecting`, and its
/// handle is handed back to be closed; no other session changes either way.
pub fn transfer_interrupted(
    registry: &mut SessionRegistry,
    server_id: &String,
    progress: &TransferProgress,
    transport_lost: bool,
) -> (r: (TransferFailure, Option<u64>))
    requires
        old(registry).wf(),
    ensures
        final(registry).wf(),
        r.0.kind == ErrorKind::TransferInterrupted,
        r.0.bytes_transferred == progress.transferred,
        final(registry)@ == (if transport_lost {
            after_transport_lost(old(registry)@, server_id@)
        } else {
            old(registry)@
        }),
        others_unchanged(old(registry)@, final(registry)@, server_id@),
        r.1 == (if transport_lost && is_live(old(registry)@, server_id@) {
            old(registry)@[server_id@].transport
        } else {
            None
        }),
{
    let stale = if transport_lost {
        registry.mark_transport_lost(server_id)
    } else {
        None
    };
    (progress.interrupted(), stale)
}
} // verus!
