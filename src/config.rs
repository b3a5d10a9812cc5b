use vstd::prelude::*;

verus! {

/// How to reach and authenticate to a host.
pub struct ConnectionConfig {
    pub host: String,
    pub username: String,
    pub password: Option<String>,
    pub private_key_path: Option<String>,
}

/// The credential a session is authenticated with.
pub enum Credential {
    Password(String),
    KeyFile(String),
    /// Neither credential is given: authentication is skipped.
    Skip,
}

/// A password wins over a key file; with neither, nothing is tried.
pub open spec fn credential_of(c: ConnectionConfig) -> Credential {
    match c.password {
        Some(pw) => Credential::Password(pw),
        None => match c.private_key_path {
            Some(k) => Credential::KeyFile(k),
            None => Credential::Skip,
        },
    }
}

fn copy_opt(s: &Option<String>) -> (r: Option<String>)
    ensures
        r == *s,
{
    match s {
        Some(v) => Some(v.clone()),
        None => None,
    }
}

impl ConnectionConfig {
    pub fn new(
        host: String,
        username: String,
        password: Option<String>,
        private_key_path: Option<String>,
    ) -> (r: ConnectionConfig)
        ensures
            r.host == host,
            r.username == username,
            r.password == password,
            r.private_key_path == private_key_path,
    {
        ConnectionConfig { host, username, password, private_key_path }
    }

    /// An independent copy, equal field by field.
    pub fn duplicate(&self) -> (r: ConnectionConfig)
        ensures
            r == *self,
    {
        ConnectionConfig {
            host: self.host.clone(),
            username: self.username.clone(),
            password: copy_opt(&self.password),
            private_key_path: copy_opt(&self.private_key_path),
        }
    }

    /// The credential that a new session will use.
    pub fn credential(&self) -> (r: Credential)
        ensures
            r == credential_of(*self),
    {
        match &self.password {
            Some(pw) => Credential::Password(pw.clone()),
            None => match &self.private_key_path {
                Some(k) => Credential::KeyFile(k.clone()),
                None => Credential::Skip,
            },
        }
    }
}

} // verus!
