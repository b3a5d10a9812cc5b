//! A single-session SFTP browser core: connection settings, the session
//! manager that owns the live connection, directory listings and chunked
//! transfers with progress reporting.

pub mod error;
pub mod config;
pub mod listing;
pub mod transfer;
pub mod client;
pub mod state;
pub mod progress;
