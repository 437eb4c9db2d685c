//! Verified core of a small remote-deployment tool.
//!
//! The library decides what a deployment does: which remote commands are
//! issued, in what order the deploy steps run, how probe output is read, and
//! how per-target results are aggregated into a report. Performing the remote
//! operations (the ssh transport, file and console I/O) is left to the
//! unverified shell around the library, which feeds outcomes back in as plain
//! values.

use vstd::prelude::*;

pub mod config;
pub mod deploy;
pub mod executable;
pub mod group;
pub mod report;
pub mod text;

verus! {

/// The kinds of failure a deployment run can report.
#[derive(Clone, Copy, Debug, PartialEq, Eq, Structural)]
pub enum DeployError {
    /// Opening or authenticating the remote session failed; no target in the
    /// affected group is reachable.
    ConnectionError,
    /// A file transfer failed, or the swap step refused to replace a path
    /// that resolves to a directory.
    TransferError,
    /// A remote command could not be executed at the transport level.
    RemoteExecError,
    /// A target descriptor had an empty required field.
    ConfigurationError,
    /// The requested target id is absent from the resolved group.
    NotFoundError,
}

} // verus!
