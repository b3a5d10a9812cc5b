use sftp_browser::client::{listing_result, login_result, remote_result, size_or_zero};
use sftp_browser::config::{ConnectionConfig, Credential};
use sftp_browser::error::SshError;
use sftp_browser::listing::{entries_from_remote, entry_from_remote, is_dir_mode, RemoteStat};
use sftp_browser::progress::{relay_step, ProgressEvent, RelayStep};
use sftp_browser::state::AppState;
use sftp_browser::transfer::{after_read, pump, read_error, write_error, Direction, ReadStep, CHUNK_SIZE};
use std::cell::RefCell;

fn config(password: Option<&str>, key: Option<&str>) -> ConnectionConfig {
    ConnectionConfig::new(
        "example.org".to_string(),
        "alice".to_string(),
        password.map(|s| s.to_string()),
        key.map(|s| s.to_string()),
    )
}

fn stat(path: &str, size: Option<u64>, perm: Option<u32>, mtime: Option<u64>) -> RemoteStat {
    RemoteStat { path: path.to_string(), size, perm, mtime }
}

struct FailingReader;

impl std::io::Read for FailingReader {
    fn read(&mut self, _buf: &mut [u8]) -> std::io::Result<usize> {
        Err(std::io::Error::new(std::io::ErrorKind::Other, "read broke"))
    }
}

struct FailingWriter;

impl std::io::Write for FailingWriter {
    fn write(&mut self, _buf: &[u8]) -> std::io::Result<usize> {
        Err(std::io::Error::new(std::io::ErrorKind::Other, "write broke"))
    }
    fn flush(&mut self) -> std::io::Result<()> {
        Ok(())
    }
}

#[test]
fn password_wins_over_key_file() {
    match config(Some("pw"), Some("/k")).credential() {
        Credential::Password(p) => assert_eq!(p, "pw"),
        _ => panic!("expected the password"),
    }
    match config(None, Some("/k")).credential() {
        Credential::KeyFile(k) => assert_eq!(k, "/k"),
        _ => panic!("expected the key file"),
    }
    assert!(matches!(config(None, None).credential(), Credential::Skip));
}

#[test]
fn login_outcomes() {
    match login_result(Err("no banner".to_string()), Err("ignored".to_string())) {
        Err(SshError::Handshake(m)) => assert_eq!(m, "no banner"),
        _ => panic!("expected a handshake error"),
    }
    match login_result(Ok(()), Err("bad password".to_string())) {
        Err(SshError::Auth(m)) => assert_eq!(m, "bad password"),
        _ => panic!("expected an auth error"),
    }
    assert!(login_result(Ok(()), Ok(())).is_ok());
}

#[test]
fn remote_failures_become_remote_errors() {
    match remote_result::<u32>(Err("no such file".to_string())) {
        Err(SshError::RemoteIo(m)) => assert_eq!(m, "no such file"),
        _ => panic!("expected a remote error"),
    }
    assert!(matches!(remote_result::<u32>(Ok(7)), Ok(7)));
    match listing_result(Err("permission denied".to_string())) {
        Err(SshError::RemoteIo(m)) => assert_eq!(m, "permission denied"),
        _ => panic!("expected a remote error"),
    }
    let listed = listing_result(Ok(vec![stat("/x/y", Some(3), None, None)])).ok().unwrap();
    assert_eq!(listed.len(), 1);
    assert_eq!(listed[0].name, "y");
    assert!(listing_result(Ok(Vec::new())).ok().unwrap().is_empty());
}

#[test]
fn missing_size_reports_zero() {
    assert_eq!(size_or_zero(Some(100_000)), 100_000);
    assert_eq!(size_or_zero(None), 0);
}

#[test]
fn duplicate_keeps_every_field() {
    let c = config(Some("pw"), None);
    let d = c.duplicate();
    assert_eq!(d.host, "example.org");
    assert_eq!(d.username, "alice");
    assert_eq!(d.password.as_deref(), Some("pw"));
    assert_eq!(d.private_key_path, None);
}

#[test]
fn error_messages() {
    assert_eq!(SshError::NotConnected.message(), "Not connected");
    assert_eq!(SshError::Auth("denied".to_string()).message(), "denied");
    assert!(SshError::NotConnected.is_not_connected());
    assert!(!SshError::LocalIo("x".to_string()).is_not_connected());
}

#[test]
fn directory_mode_bits() {
    assert!(is_dir_mode(Some(0o040755)));
    assert!(!is_dir_mode(Some(0o100644)));
    assert!(!is_dir_mode(Some(0o120777)));
    assert!(!is_dir_mode(None));
}

#[test]
fn entry_takes_final_component_and_zero_defaults() {
    let e = entry_from_remote(&stat("/home/alice/notes.txt", None, Some(0o100644), None));
    assert_eq!(e.name, "notes.txt");
    assert_eq!(e.path, "/home/alice/notes.txt");
    assert_eq!(e.size, 0);
    assert_eq!(e.modified, 0);
    assert!(!e.is_dir);
    let d = entry_from_remote(&stat("/srv/data", Some(4096), Some(0o040700), Some(1_700_000_000)));
    assert_eq!(d.name, "data");
    assert_eq!(d.size, 4096);
    assert_eq!(d.modified, 1_700_000_000);
    assert!(d.is_dir);
}

#[test]
fn empty_directory_lists_nothing() {
    assert!(entries_from_remote(&Vec::new()).is_empty());
}

#[test]
fn listing_keeps_server_order_and_names() {
    let raw = vec![
        stat("/d/zeta", Some(1), Some(0o100600), Some(5)),
        stat("/d/alpha", Some(2), Some(0o040700), Some(6)),
        stat("/d/mid.tar.gz", None, None, None),
    ];
    let listed = entries_from_remote(&raw);
    let names: Vec<&str> = listed.iter().map(|e| e.name.as_str()).collect();
    assert_eq!(names, vec!["zeta", "alpha", "mid.tar.gz"]);
    assert_eq!(listed[1].size, 2);
    assert!(listed[1].is_dir);
}

#[test]
fn operations_before_connect_are_refused() {
    let state = AppState::new();
    assert!(!state.connected());
    assert!(matches!(state.list_files("/"), Err(SshError::NotConnected)));
    let mut src: &[u8] = b"payload";
    assert!(matches!(state.upload_file(&mut src, "/tmp/x"), Err(SshError::NotConnected)));
    assert!(matches!(state.download_config(), Err(SshError::NotConnected)));
}

#[test]
fn disconnect_twice_is_harmless() {
    let mut state = AppState::new();
    state.disconnect();
    assert!(!state.connected());
    state.disconnect();
    assert!(!state.connected());
    assert!(state.connection_config.is_none());
    assert!(matches!(state.list_files("/"), Err(SshError::NotConnected)));
}

#[test]
fn download_reports_once_per_full_chunk() {
    let data: Vec<u8> = (0..70_000u32).map(|i| (i % 251) as u8).collect();
    let mut src: &[u8] = &data;
    let mut dst: Vec<u8> = Vec::new();
    let seen = RefCell::new(Vec::new());
    let report = |done: u64, total: u64| seen.borrow_mut().push((done, total));
    let r = pump(&mut src, &mut dst, 70_000, &report, Direction::Download);
    assert!(matches!(r, Ok(70_000)));
    assert_eq!(*seen.borrow(), vec![(32_768, 70_000), (65_536, 70_000), (70_000, 70_000)]);
    assert_eq!(CHUNK_SIZE, 32_768);
}

#[test]
fn copied_bytes_equal_the_source() {
    let data: Vec<u8> = (0..100_000u32).map(|i| (i * 7 % 256) as u8).collect();
    let mut src: &[u8] = &data;
    let mut dst: Vec<u8> = Vec::new();
    let report = |_done: u64, _total: u64| {};
    let r = pump(&mut src, &mut dst, 100_000, &report, Direction::Upload);
    assert!(matches!(r, Ok(100_000)));
    assert_eq!(dst, data);
}

#[test]
fn empty_file_reports_nothing() {
    let mut src: &[u8] = &[];
    let mut dst: Vec<u8> = Vec::new();
    let seen = RefCell::new(Vec::new());
    let report = |done: u64, total: u64| seen.borrow_mut().push((done, total));
    let r = pump(&mut src, &mut dst, 0, &report, Direction::Download);
    assert!(matches!(r, Ok(0)));
    assert!(seen.borrow().is_empty());
    assert!(dst.is_empty());
}

#[test]
fn failing_read_side_by_direction() {
    let mut dst: Vec<u8> = Vec::new();
    let report = |_done: u64, _total: u64| {};
    match pump(&mut FailingReader, &mut dst, 10, &report, Direction::Download) {
        Err(SshError::RemoteIo(m)) => assert_eq!(m, "read broke"),
        _ => panic!("expected a remote read error"),
    }
    match pump(&mut FailingReader, &mut dst, 10, &report, Direction::Upload) {
        Err(SshError::LocalIo(m)) => assert_eq!(m, "read broke"),
        _ => panic!("expected a local read error"),
    }
}

#[test]
fn failing_write_side_by_direction() {
    let report = |_done: u64, _total: u64| {};
    let mut src: &[u8] = b"abc";
    assert!(matches!(
        pump(&mut src, &mut FailingWriter, 3, &report, Direction::Download),
        Err(SshError::LocalIo(_))
    ));
    let mut src: &[u8] = b"abc";
    assert!(matches!(
        pump(&mut src, &mut FailingWriter, 3, &report, Direction::Upload),
        Err(SshError::RemoteIo(_))
    ));
}

#[test]
fn error_side_helpers() {
    assert!(matches!(read_error(Direction::Download, "m".to_string()), SshError::RemoteIo(_)));
    assert!(matches!(read_error(Direction::Upload, "m".to_string()), SshError::LocalIo(_)));
    assert!(matches!(write_error(Direction::Download, "m".to_string()), SshError::LocalIo(_)));
    assert!(matches!(write_error(Direction::Upload, "m".to_string()), SshError::RemoteIo(_)));
}

#[test]
fn relay_forwards_progress_and_stops_on_failure() {
    assert!(matches!(
        relay_step(Some(ProgressEvent::Progress { done: 5, total: 10 })),
        RelayStep::Emit { done: 5, total: 10 }
    ));
    match relay_step(Some(ProgressEvent::Failure("gone".to_string()))) {
        RelayStep::Fail(m) => assert_eq!(m, "gone"),
        _ => panic!("expected failure"),
    }
    assert!(matches!(relay_step(None), RelayStep::Finish));
}

#[test]
fn step_after_each_kind_of_read() {
    assert!(matches!(after_read(5, Ok(3), Direction::Download), ReadStep::Write { n: 3, moved: 8 }));
    assert!(matches!(after_read(42, Ok(0), Direction::Download), ReadStep::Finish(42)));
    match after_read(0, Err("eof?".to_string()), Direction::Upload) {
        ReadStep::Fail(SshError::LocalIo(m)) => assert_eq!(m, "eof?"),
        _ => panic!("expected a local read error"),
    }
    match after_read(u64::MAX - 1, Ok(2), Direction::Download) {
        ReadStep::Fail(SshError::RemoteIo(m)) => assert_eq!(m, "transfer longer than 2^64 bytes"),
        _ => panic!("expected an overflow error"),
    }
    assert!(matches!(
        after_read(u64::MAX - 2, Ok(2), Direction::Download),
        ReadStep::Write { n: 2, moved: u64::MAX }
    ));
}
