use vstd::prelude::*;

verus! {

/// Why an operation of the browser failed.
pub enum SshError {
    /// The transport could not be opened.
    Connection(String),
    /// The SSH protocol negotiation failed.
    Handshake(String),
    /// The server rejected the credentials, or the key file was unusable.
    Auth(String),
    /// The operation needs a live session and there is none.
    NotConnected,
    /// An SFTP open, read, write or stat on the remote side failed.
    RemoteIo(String),
    /// A read or write of a local file failed.
    LocalIo(String),
}

/// The text shown for a missing session.
pub open spec fn not_connected_text() -> Seq<char> {
    "Not connected"@
}

/// The human-readable message of an error.
pub open spec fn message_of(e: SshError) -> Seq<char> {
    match e {
        SshError::Connection(m) => m@,
        SshError::Handshake(m) => m@,
        SshError::Auth(m) => m@,
        SshError::NotConnected => not_connected_text(),
        SshError::RemoteIo(m) => m@,
        SshError::LocalIo(m) => m@,
    }
}

impl SshError {
    /// The message handed to the caller at the operation boundary.
    pub fn message(&self) -> (r: String)
        ensures
            r@ == message_of(*self),
    {
        match self {
            SshError::Connection(m) => m.clone(),
            SshError::Handshake(m) => m.clone(),
            SshError::Auth(m) => m.clone(),
            SshError::NotConnected => {
                proof {
                    reveal_strlit("Not connected");
                }
                "Not connected".to_owned()
            },
            SshError::RemoteIo(m) => m.clone(),
            SshError::LocalIo(m) => m.clone(),
        }
    }

    /// Whether the error says that no session was open.
    pub fn is_not_connected(&self) -> (r: bool)
        ensures
            r == (*self is NotConnected),
    {
        match self {
            SshError::NotConnected => true,
            _ => false,
        }
    }
}

} // verus!
