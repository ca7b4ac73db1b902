//! Startup supervision for the 9Router Node.js server: retry policy with
//! exponential backoff, readiness and liveness decisions, process command
//! lines, pid discovery and service files.

pub mod health;
pub mod paths;
pub mod process;
pub mod retry;
pub mod service;
pub mod supervisor;
pub mod text;

use vstd::prelude::*;

verus! {

/// Why an operation of the bootstrapper could not go on.
#[derive(Debug, Clone, Copy, PartialEq, Eq, Structural)]
pub enum BootstrapError {
    /// No `node` executable was found on `PATH` nor at the usual install locations.
    NodeNotFound,
    /// The server script handed to `start` does not exist.
    ServerScriptMissing,
    /// The home directory of the current user could not be determined.
    HomeDirUnknown,
    /// None of the usual install locations holds the 9Router server script.
    ServerScriptNotFound,
    /// The pid file does not hold a process id.
    InvalidPidFile,
}

} // verus!
