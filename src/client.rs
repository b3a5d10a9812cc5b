use vstd::prelude::*;
use crate::config::{credential_of, Credential, ConnectionConfig};
use crate::error::SshError;
use crate::listing::{entries_from_remote, entry_matches, final_component, or_zero, FileEntry, RemoteStat};
use crate::transfer::{progress_trace, pump, Direction};

verus! {

#[verifier::external_type_specification]
#[verifier::external_body]
pub struct ExSession(ssh2::Session);

#[verifier::external_type_specification]
#[verifier::external_body]
pub struct ExSftp(ssh2::Sftp);

#[verifier::external_type_specification]
#[verifier::external_body]
pub struct ExFile(ssh2::File);

/// Relies on `ssh2::Session::handshake`: protocol negotiation on the stream
/// that the session was given.
#[verifier::external_body]
fn handshake(session: &mut ssh2::Session) -> (r: Result<(), String>) {
    session.handshake().map_err(|e| e.to_string())
}

/// Relies on `ssh2::Session::userauth_password`.
#[verifier::external_body]
fn password_auth(session: &ssh2::Session, user: &str, password: &str) -> (r: Result<(), String>) {
    session.userauth_password(user, password).map_err(|e| e.to_string())
}

/// Relies on `ssh2::Session::userauth_pubkey_file`, with no public key file
/// and no passphrase.
#[verifier::external_body]
fn key_file_auth(session: &ssh2::Session, user: &str, key_path: &str) -> (r: Result<(), String>) {
    session.userauth_pubkey_file(user, None, std::path::Path::new(key_path), None).map_err(
        |e| e.to_string(),
    )
}

/// Relies on `ssh2::Session::sftp`: opens the SFTP subsystem.
#[verifier::external_body]
fn open_sftp(session: &ssh2::Session) -> (r: Result<ssh2::Sftp, String>) {
    session.sftp().map_err(|e| e.to_string())
}

/// Relies on `ssh2::Sftp::readdir`: the records of a directory, `.` and `..`
/// left out, each path joined to the directory's.
#[verifier::external_body]
fn read_dir(sftp: &ssh2::Sftp, path: &str) -> (r: Result<Vec<RemoteStat>, String>) {
    match sftp.readdir(std::path::Path::new(path)) {
        Ok(v) => Ok(v.into_iter().map(|(p, s)| RemoteStat {
            path: p.to_string_lossy().into_owned(),
            size: s.size,
            perm: s.perm,
            mtime: s.mtime,
        }).collect()),
        Err(e) => Err(e.to_string()),
    }
}

/// Relies on `ssh2::Sftp::open`: opens a remote file for reading.
#[verifier::external_body]
fn open_remote(sftp: &ssh2::Sftp, path: &str) -> (r: Result<ssh2::File, String>) {
    sftp.open(std::path::Path::new(path)).map_err(|e| e.to_string())
}

/// Relies on `ssh2::Sftp::create`: opens a remote file for writing,
/// creating or truncating it.
#[verifier::external_body]
fn create_remote(sftp: &ssh2::Sftp, path: &str) -> (r: Result<ssh2::File, String>) {
    sftp.create(std::path::Path::new(path)).map_err(|e| e.to_string())
}

/// Relies on `ssh2::File::stat`: the size field of the open file's
/// attributes, absent where the server did not send it.
#[verifier::external_body]
fn remote_size(file: &mut ssh2::File) -> (r: Result<Option<u64>, String>) {
    file.stat().map(|s| s.size).map_err(|e| e.to_string())
}

/// The outcome of opening a session: a failed handshake is a `Handshake`
/// error with its message (authentication is then never tried), a rejected
/// credential an `Auth` error with its message, and otherwise success.
pub fn login_result(handshake: Result<(), String>, auth: Result<(), String>) -> (r: Result<
    (),
    SshError,
>)
    ensures
        handshake matches Err(m) ==> r == Err::<(), SshError>(SshError::Handshake(m)),
        handshake is Ok ==> (auth matches Err(m) ==> r == Err::<(), SshError>(SshError::Auth(m))),
        handshake is Ok && auth is Ok ==> r is Ok,
{
    match handshake {
        Err(m) => Err(SshError::Handshake(m)),
        Ok(()) => match auth {
            Err(m) => Err(SshError::Auth(m)),
            Ok(()) => Ok(()),
        },
    }
}

/// A failed remote step becomes a `RemoteIo` error with its message; a
/// successful one passes its value on.
pub fn remote_result<T>(outcome: Result<T, String>) -> (r: Result<T, SshError>)
    ensures
        outcome matches Ok(v) ==> (r matches Ok(w) && w == v),
        outcome matches Err(m) ==> (r matches Err(SshError::RemoteIo(e)) && e == m),
{
    match outcome {
        Ok(v) => Ok(v),
        Err(m) => Err(SshError::RemoteIo(m)),
    }
}

/// The listing for the outcome of reading a directory: the entries for the
/// records, or the read's failure as a `RemoteIo` error.
pub fn listing_result(outcome: Result<Vec<RemoteStat>, String>) -> (r: Result<
    Vec<FileEntry>,
    SshError,
>)
    ensures
        outcome matches Err(m) ==> (r matches Err(SshError::RemoteIo(e)) && e == m),
        outcome matches Ok(raw) ==> (r matches Ok(v) && v@.len() == raw@.len() && forall|i: int|
            0 <= i < raw@.len() ==> entry_matches(#[trigger] v@[i], raw@[i])),
{
    match outcome {
        Ok(raw) => Ok(entries_from_remote(&raw)),
        Err(m) => Err(SshError::RemoteIo(m)),
    }
}

/// The size to report against: the one the server gave, or zero.
pub fn size_or_zero(size: Option<u64>) -> (r: u64)
    ensures
        r == or_zero(size),
{
    match size {
        Some(n) => n,
        None => 0,
    }
}

/// An authenticated SSH session.
pub struct SshClient {
    session: ssh2::Session,
    config: Ghost<ConnectionConfig>,
}

impl SshClient {
    /// The settings the session was built from.
    pub closed spec fn built_from(&self) -> ConnectionConfig {
        self.config@
    }

    /// Negotiates the protocol on `session`, whose stream is already
    /// connected to the host, then authenticates with the credential that
    /// `ConnectionConfig::credential` picks: the password if there is one,
    /// else the key file if there is one, else none. The outcome is
    /// `login_result` of the two steps.
    pub fn new(session: ssh2::Session, config: &ConnectionConfig) -> (r: Result<SshClient, SshError>)
        ensures
            r matches Ok(c) ==> c.built_from() == *config,
            r matches Err(e) ==> (e is Handshake || e is Auth),
            r matches Err(e) ==> (e is Auth ==> !(credential_of(*config) is Skip)),
    {
        let mut session = session;
        let shaken = handshake(&mut session);
        let auth = if shaken.is_ok() {
            match config.credential() {
                Credential::Password(pw) => password_auth(&session, config.username.as_str(), pw.as_str()),
                Credential::KeyFile(key) => key_file_auth(&session, config.username.as_str(), key.as_str()),
                Credential::Skip => Ok(()),
            }
        } else {
            Ok(())
        };
        match login_result(shaken, auth) {
            Ok(()) => Ok(SshClient { session, config: Ghost(*config) }),
            Err(e) => Err(e),
        }
    }

    /// The entries of a remote directory, in the server's order, each named
    /// by the final component of its path. Every failure is a `RemoteIo`
    /// error; the records go through `listing_result`.
    pub fn list_directory(&self, path: &str) -> (r: Result<Vec<FileEntry>, SshError>)
        ensures
            r matches Err(e) ==> e is RemoteIo,
            r matches Ok(v) ==> forall|i: int|
                0 <= i < v@.len() ==> (#[trigger] v@[i]).name@ == final_component(v@[i].path@),
    {
        let sftp = match remote_result(open_sftp(&self.session)) {
            Ok(s) => s,
            Err(e) => return Err(e),
        };
        listing_result(read_dir(&sftp, path))
    }

    /// Copies a remote file into `local` in chunks of at most `CHUNK_SIZE`
    /// bytes, calling `progress` after each chunk with the bytes copied so
    /// far and the size the server states for the file (`size_or_zero`).
    /// An empty file gets no progress report. A failure to open or stat the
    /// remote file ends the download before any report. Returns the number
    /// of bytes copied.
    pub fn download_file<W: std::io::Write, F: Fn(u64, u64)>(
        &self,
        remote_path: &str,
        local: &mut W,
        progress: F,
    ) -> (r: Result<u64, SshError>)
        requires
            forall|done: u64, total: u64| progress.requires((done, total)),
        ensures
            r matches Err(e) ==> (e is RemoteIo || e is LocalIo),
            r is Ok ==> exists|counts: Seq<u64>, total: u64|
                #[trigger] progress_trace(progress, counts, total, r->Ok_0),
    {
        let sftp = match remote_result(open_sftp(&self.session)) {
            Ok(s) => s,
            Err(e) => return Err(e),
        };
        let mut remote = match remote_result(open_remote(&sftp, remote_path)) {
            Ok(f) => f,
            Err(e) => return Err(e),
        };
        let total_size: u64 = match remote_result(remote_size(&mut remote)) {
            Ok(s) => size_or_zero(s),
            Err(e) => return Err(e),
        };
        let r = pump(&mut remote, local, total_size, progress, Direction::Download);
        proof {
            if r is Ok {
                let n = r->Ok_0;
                let c = choose|c: Seq<u64>| progress_trace(progress, c, total_size, n);
                assert(progress_trace(progress, c, total_size, n));
            }
        }
        r
    }

    /// Copies everything `local` yields into a remote file, created or
    /// truncated first. Returns the number of bytes copied. A failed upload
    /// may leave a truncated remote file.
    pub fn upload_file<R: std::io::Read>(&self, local: &mut R, remote_path: &str) -> (r: Result<
        u64,
        SshError,
    >)
        ensures
            r matches Err(e) ==> (e is RemoteIo || e is LocalIo),
    {
        let sftp = match remote_result(open_sftp(&self.session)) {
            Ok(s) => s,
            Err(e) => return Err(e),
        };
        let mut remote = match remote_result(create_remote(&sftp, remote_path)) {
            Ok(f) => f,
            Err(e) => return Err(e),
        };
        let no_progress = |_done: u64, _total: u64| {};
        pump(local, &mut remote, 0, no_progress, Direction::Upload)
    }
}

} // verus!

verus! {

/// The body of a download that runs apart from the shared session: it
/// builds a session of its own on `session` from `config`, then copies the
/// remote file into `local`, reporting progress as `SshClient::download_file`
/// does.
pub fn download_in_own_session<W: std::io::Write, F: Fn(u64, u64)>(
    session: ssh2::Session,
    config: &ConnectionConfig,
    remote_path: &str,
    local: &mut W,
    progress: F,
) -> (r: Result<u64, SshError>)
    requires
        forall|done: u64, total: u64| progress.requires((done, total)),
    ensures
        r matches Err(e) ==> (e is Handshake || e is Auth || e is RemoteIo || e is LocalIo),
        r matches Err(e) ==> (e is Auth ==> !(credential_of(*config) is Skip)),
        r is Ok ==> exists|counts: Seq<u64>, total: u64|
            #[trigger] progress_trace(progress, counts, total, r->Ok_0),
{
    match SshClient::new(session, config) {
        Ok(client) => client.download_file(remote_path, local, progress),
        Err(e) => Err(e),
    }
}

} // verus!
