//! Remote session engine: a registry of connections to remote hosts, the
//! decisions around command execution and file transfer on them, and parsers
//! that turn the hosts' diagnostic output into monitoring snapshots.
//!
//! Network work is done by the caller; every function here decides on values
//! and states what it returns.

pub mod error;
pub mod session;
pub mod registry;
pub mod executor;
pub mod files;
pub mod text;
pub mod monitor;
pub mod laws;
pub mod ssh_commands;
pub mod file_commands;
pub mod profiles;
pub mod assistant;
