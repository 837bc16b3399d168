use myssh::error::ErrorKind;
use myssh::file_commands::{
    change_file_mode_begin, change_file_mode_response, create_directory_response,
    delete_files_response, download_file_response, list_remote_directory_response,
    rename_file_response, upload_file_response, change_file_mode_many_begin,
    change_file_mode_many_response, transfer_interrupted, ChangeFileModeManyParams, ChangeFileModeParams,
};
use myssh::files::{
    batch_results, build_listing, join_entry_path, kind_of_mode, parse_mode, status_outcome,
    FileKind, RawEntry, TransferProgress, TRANSFER_CHUNK_BYTES,
};
use myssh::registry::SessionRegistry;

fn s(x: &str) -> String {
    x.to_string()
}

fn raw(name: &str, mode: u32, size: u64) -> RawEntry {
    RawEntry { name: s(name), mode, size, mtime: 1_700_000_000 }
}

#[test]
fn delete_many_reports_each_path() {
    let paths = vec![s("/tmp/A"), s("/tmp/B"), s("/tmp/C")];
    let r = delete_files_response(paths, &vec![0, 2, 0]);
    assert!(r.success);
    assert_eq!(r.results.len(), 3);
    assert_eq!(r.results[0].path, "/tmp/A");
    assert_eq!(r.results[0].outcome, Ok(()));
    assert_eq!(r.results[1].path, "/tmp/B");
    assert_eq!(r.results[1].outcome, Err(ErrorKind::PathNotFound));
    assert_eq!(r.results[2].path, "/tmp/C");
    assert_eq!(r.results[2].outcome, Ok(()));
}

#[test]
fn batch_counts_successes() {
    let b = batch_results(vec![s("a"), s("b"), s("c"), s("d")], &vec![0, 3, 11, 0]);
    assert_eq!(b.succeeded(), 2);
    assert!(!b.all_succeeded());
    assert_eq!(b.results[1].outcome, Err(ErrorKind::PermissionDenied));
    assert_eq!(b.results[2].outcome, Err(ErrorKind::AlreadyExists));
    let empty = batch_results(vec![], &vec![]);
    assert_eq!(empty.succeeded(), 0);
    assert!(empty.all_succeeded());
}

#[test]
fn status_codes_map_to_kinds() {
    assert_eq!(status_outcome(0), Ok(()));
    assert_eq!(status_outcome(2), Err(ErrorKind::PathNotFound));
    assert_eq!(status_outcome(10), Err(ErrorKind::PathNotFound));
    assert_eq!(status_outcome(3), Err(ErrorKind::PermissionDenied));
    assert_eq!(status_outcome(11), Err(ErrorKind::AlreadyExists));
    assert_eq!(status_outcome(7), Err(ErrorKind::TransportLost));
    assert_eq!(status_outcome(4), Err(ErrorKind::RemoteFailure(4)));
}

#[test]
fn download_interrupted_reports_bytes() {
    let mut p = TransferProgress::new(Some(100_000));
    assert_eq!(p.next_chunk_len(), TRANSFER_CHUNK_BYTES);
    p.advance(32768);
    p.advance(32768);
    assert_eq!(p.next_chunk_len(), 32768);
    p.advance(1000);
    let f = p.interrupted();
    assert_eq!(f.kind, ErrorKind::TransferInterrupted);
    assert_eq!(f.bytes_transferred, 66536);
    let r = download_file_response(Err(f));
    assert!(!r.success);
    assert_eq!(r.bytes_transferred, 66536);
    assert_eq!(r.error, Some(ErrorKind::TransferInterrupted));
    assert_eq!(r.message.unwrap(), "传输中断");
}

#[test]
fn interrupted_transfer_leaves_other_sessions() {
    let mut reg = SessionRegistry::new();
    for (id, h) in [("a", 1u64), ("b", 2u64)] {
        reg.begin_connect(s(id), s("h"), 22, s("u"), 0);
        reg.finish_connect(&s(id), Ok(h), 0).unwrap();
    }
    let mut p = TransferProgress::new(None);
    p.advance(10);
    let f = p.interrupted();
    assert_eq!(f.bytes_transferred, 10);
    assert_eq!(reg.mark_transport_lost(&s("a")), Some(1));
    assert_eq!(reg.resolve(&s("b")), Ok(2));
}

#[test]
fn transfer_completes_at_known_size() {
    let mut p = TransferProgress::new(Some(5));
    assert_eq!(p.next_chunk_len(), 5);
    p.advance(5);
    assert!(p.is_complete());
    assert_eq!(p.next_chunk_len(), 0);
    let r = upload_file_response(Ok(5));
    assert!(r.success);
    assert_eq!(r.bytes_transferred, 5);
    assert_eq!(r.error, None);
    assert!(!TransferProgress::new(None).is_complete());
}

#[test]
fn mode_parsing() {
    assert_eq!(parse_mode("755"), Ok(0o755));
    assert_eq!(parse_mode("0644"), Ok(0o644));
    assert_eq!(parse_mode("7"), Ok(7));
    assert_eq!(parse_mode("7777"), Ok(0o7777));
    assert_eq!(parse_mode("789"), Err(ErrorKind::InvalidMode));
    assert_eq!(parse_mode(""), Err(ErrorKind::InvalidMode));
    assert_eq!(parse_mode("07555"), Err(ErrorKind::InvalidMode));
    assert_eq!(parse_mode("rwx"), Err(ErrorKind::InvalidMode));
    let p = ChangeFileModeParams { server_id: s("a"), path: s("/x"), mode: s("9") };
    assert_eq!(change_file_mode_begin(&p), Err(ErrorKind::InvalidMode));
}

#[test]
fn single_path_mutations() {
    let r = create_directory_response(11);
    assert!(!r.success);
    assert_eq!(r.error, Some(ErrorKind::AlreadyExists));
    assert_eq!(r.message.unwrap(), "路径已存在");
    let r = rename_file_response(2);
    assert_eq!(r.error, Some(ErrorKind::PathNotFound));
    let r = change_file_mode_response(3);
    assert_eq!(r.error, Some(ErrorKind::PermissionDenied));
    let r = create_directory_response(0);
    assert!(r.success);
    assert_eq!(r.message.unwrap(), "创建目录成功");
}

#[test]
fn file_kinds_from_mode() {
    assert_eq!(kind_of_mode(0o040755), FileKind::Directory);
    assert_eq!(kind_of_mode(0o120777), FileKind::Symlink);
    assert_eq!(kind_of_mode(0o100644), FileKind::File);
}

#[test]
fn entry_paths() {
    assert_eq!(join_entry_path("/var/log", "syslog"), "/var/log/syslog");
    assert_eq!(join_entry_path("/", "etc"), "/etc");
    assert_eq!(join_entry_path("/var/log", "."), "/var/log");
    assert_eq!(join_entry_path("/var/log", ".."), "/var/log/..");
}

#[test]
fn listing_keeps_order() {
    let entries = build_listing(
        "/var/log",
        vec![raw(".", 0o040755, 4096), raw("..", 0o040755, 4096), raw("syslog", 0o100640, 1234)],
    );
    let names: Vec<&str> = entries.iter().map(|e| e.name.as_str()).collect();
    assert_eq!(names, vec![".", "..", "syslog"]);
    assert_eq!(entries[2].kind, FileKind::File);
    assert_eq!(entries[2].permissions, 0o640);
    assert_eq!(entries[2].size_bytes, 1234);
    assert_eq!(entries[2].path, "/var/log/syslog");
}

#[test]
fn listing_response_and_errors() {
    let r = list_remote_directory_response(&s("/srv"), 0, vec![raw("data", 0o040700, 0)]).ok().unwrap();
    assert_eq!(r.files.len(), 1);
    assert_eq!(r.files[0].file_type, "directory");
    assert_eq!(r.files[0].path, "/srv/data");
    assert_eq!(r.files[0].modified, 1_700_000_000);
    assert!(matches!(list_remote_directory_response(&s("/nope"), 2, vec![]), Err(ErrorKind::PathNotFound)));
    assert!(matches!(list_remote_directory_response(&s("/root"), 3, vec![]), Err(ErrorKind::PermissionDenied)));
}

#[test]
fn chunk_acceptance() {
    let mut p = TransferProgress::new(Some(10));
    assert_eq!(p.accept_chunk(4, 10), Ok(()));
    assert_eq!(p.transferred, 4);
    let f = p.accept_chunk(0, 6).unwrap_err();
    assert_eq!(f.kind, ErrorKind::TransferInterrupted);
    assert_eq!(f.bytes_transferred, 4);
    assert_eq!(p.accept_chunk(7, 6).unwrap_err().bytes_transferred, 4);
    assert_eq!(p.transferred, 4);
}

#[test]
fn interruption_with_lost_transport_is_local() {
    let mut reg = SessionRegistry::new();
    for (id, h) in [("a", 1u64), ("b", 2u64)] {
        reg.begin_connect(s(id), s("h"), 22, s("u"), 0);
        reg.finish_connect(&s(id), Ok(h), 0).unwrap();
    }
    let mut p = TransferProgress::new(Some(100));
    p.advance(40);
    let (f, stale) = transfer_interrupted(&mut reg, &s("a"), &p, true);
    assert_eq!(f.bytes_transferred, 40);
    assert_eq!(f.kind, ErrorKind::TransferInterrupted);
    assert_eq!(stale, Some(1));
    assert_eq!(reg.resolve(&s("a")), Err(ErrorKind::TransportLost));
    assert_eq!(reg.resolve(&s("b")), Ok(2));
    let (f, stale) = transfer_interrupted(&mut reg, &s("b"), &p, false);
    assert_eq!(f.bytes_transferred, 40);
    assert_eq!(stale, None);
    assert_eq!(reg.resolve(&s("b")), Ok(2));
}

#[test]
fn batch_mode_change() {
    let p = ChangeFileModeManyParams { server_id: s("a"), paths: vec![s("/x"), s("/y")], mode: s("640") };
    assert_eq!(change_file_mode_many_begin(&p), Ok(0o640));
    let bad = ChangeFileModeManyParams { server_id: s("a"), paths: vec![], mode: s("8") };
    assert_eq!(change_file_mode_many_begin(&bad), Err(ErrorKind::InvalidMode));
    let r = change_file_mode_many_response(p.paths, &vec![0, 3]);
    assert!(r.success);
    assert_eq!(r.message.as_deref(), Some("修改权限成功"));
    assert_eq!(r.results[0].outcome, Ok(()));
    assert_eq!(r.results[1].path, "/y");
    assert_eq!(r.results[1].outcome, Err(ErrorKind::PermissionDenied));
}
