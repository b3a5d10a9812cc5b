use vstd::prelude::*;
use crate::client::SshClient;
use crate::config::{credential_of, ConnectionConfig};
use crate::error::SshError;
use crate::listing::{final_component, FileEntry};

verus! {

/// The one shared connection: a live session together with the settings it
/// was built from, or neither. A host application guards it with a lock.
pub struct AppState {
    pub ssh_client: Option<SshClient>,
    pub connection_config: Option<ConnectionConfig>,
}

/// The state after `disconnect`.
pub open spec fn after_disconnect(s: AppState) -> AppState {
    AppState { ssh_client: None, connection_config: None }
}

impl AppState {
    /// Session and settings come and go together.
    pub open spec fn wf(&self) -> bool {
        self.ssh_client is Some <==> self.connection_config is Some
    }

    pub open spec fn is_connected(&self) -> bool {
        self.ssh_client is Some
    }

    /// No session.
    pub fn new() -> (r: AppState)
        ensures
            r.wf(),
            !r.is_connected(),
            r.connection_config is None,
    {
        AppState { ssh_client: None, connection_config: None }
    }

    /// Whether a session is open.
    pub fn connected(&self) -> (r: bool)
        ensures
            r == self.is_connected(),
    {
        self.ssh_client.is_some()
    }

    /// Makes `client` the current session, dropping any earlier one, and
    /// keeps `config` beside it.
    pub fn install(&mut self, client: SshClient, config: ConnectionConfig)
        ensures
            final(self).ssh_client == Some(client),
            final(self).connection_config == Some(config),
            final(self).wf(),
    {
        self.ssh_client = Some(client);
        self.connection_config = Some(config);
    }

    /// Builds a session on `session`, whose stream is connected to
    /// `config.host`, with `SshClient::new`; on success makes that session
    /// the current one with `install`, replacing any earlier session, and
    /// keeps `config`. On failure the state is left as it was, an earlier
    /// session included.
    pub fn connect(&mut self, session: ssh2::Session, config: ConnectionConfig) -> (r: Result<
        (),
        SshError,
    >)
        requires
            old(self).wf(),
        ensures
            final(self).wf(),
            r is Ok ==> final(self).connection_config == Some(config),
            r is Ok ==> (final(self).ssh_client matches Some(c) && c.built_from() == config),
            r is Err ==> *final(self) == *old(self),
            r matches Err(e) ==> (e is Handshake || e is Auth),
            r matches Err(e) ==> (e is Auth ==> !(credential_of(config) is Skip)),
    {
        match SshClient::new(session, &config) {
            Ok(client) => {
                self.install(client, config);
                Ok(())
            },
            Err(e) => Err(e),
        }
    }

    /// Drops the session and the settings; safe with no session.
    pub fn disconnect(&mut self)
        ensures
            *final(self) == after_disconnect(*old(self)),
            final(self).wf(),
            !final(self).is_connected(),
    {
        self.ssh_client = None;
        self.connection_config = None;
    }

    /// The entries of a remote directory through the current session.
    pub fn list_files(&self, path: &str) -> (r: Result<Vec<FileEntry>, SshError>)
        ensures
            !self.is_connected() <==> r matches Err(SshError::NotConnected),
            r matches Err(e) ==> (e is NotConnected || e is RemoteIo),
            r matches Ok(v) ==> forall|i: int|
                0 <= i < v@.len() ==> (#[trigger] v@[i]).name@ == final_component(v@[i].path@),
    {
        match &self.ssh_client {
            Some(client) => client.list_directory(path),
            None => Err(SshError::NotConnected),
        }
    }

    /// Uploads everything `local` yields to `remote_path` through the
    /// current session; returns the number of bytes sent.
    pub fn upload_file<R: std::io::Read>(&self, local: &mut R, remote_path: &str) -> (r: Result<
        u64,
        SshError,
    >)
        ensures
            !self.is_connected() <==> r matches Err(SshError::NotConnected),
            r matches Err(e) ==> (e is NotConnected || e is RemoteIo || e is LocalIo),
    {
        match &self.ssh_client {
            Some(client) => client.upload_file(local, remote_path),
            None => Err(SshError::NotConnected),
        }
    }

    /// A copy of the current settings, from which a download builds a
    /// session of its own so that it holds no lock on the shared one.
    pub fn download_config(&self) -> (r: Result<ConnectionConfig, SshError>)
        requires
            self.wf(),
        ensures
            !self.is_connected() <==> r matches Err(SshError::NotConnected),
            r is Err ==> r matches Err(SshError::NotConnected),
            r matches Ok(c) ==> self.connection_config == Some(c),
    {
        match &self.connection_config {
            Some(c) => Ok(c.duplicate()),
            None => Err(SshError::NotConnected),
        }
    }
}

/// Disconnecting twice in a row leaves the same state as disconnecting
/// once, and disconnecting with no session changes nothing.
pub proof fn lemma_disconnect_idempotent(s: AppState)
    ensures
        after_disconnect(after_disconnect(s)) == after_disconnect(s),
        (s.ssh_client is None && s.connection_config is None) ==> after_disconnect(s) == s,
{
}

} // verus!
