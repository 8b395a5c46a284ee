//! The failure taxonomy of the workflow engine.

use vstd::prelude::*;

verus! {

/// Why a step of the workflow failed.
///
/// Failures of the version-control tool itself carry their full diagnostics
/// (argument vector and both output streams) in a
/// [`crate::executor::CommandFailure`] at the point where the invocation is
/// classified; at the orchestration level each variant names the operation
/// that failed, which is what the recovery paths decide on.
#[derive(Debug)]
pub enum Error {
    /// Adding the ephemeral remote failed; nothing was created.
    RemoteAddFailed,
    /// Fetching the requested ref failed; the ephemeral remote was removed.
    FetchFailed,
    /// Checking out the ephemeral branch failed; both the branch and the
    /// remote were removed.
    CheckoutFailed,
    /// The contribution API answered, but no contribution carries the
    /// requested identifier.
    NotFound,
    /// The contribution API could not be reached.
    NetworkFailure,
    /// The contribution API answered with a payload of an unexpected shape.
    MalformedResponse,
    /// A merge conflict outside the documentation class; the merge was
    /// aborted, and `paths` lists every conflicted path that could not be
    /// auto-resolved, in the order the tool reported them.
    ConflictUnresolved { paths: Vec<String> },
    /// Recreating the configuration directory failed after the ephemeral
    /// branch was already checked out; the compensating rollback ran before
    /// this was surfaced.
    StateInvariantViolation,
}

impl Error {
    /// A short label for each failure class, for reporting.
    pub fn describe(&self) -> (r: &'static str)
        ensures
            r@ =~= match self {
                Error::RemoteAddFailed => "could not add remote"@,
                Error::FetchFailed => "could not fetch branch from remote"@,
                Error::CheckoutFailed => "could not checkout branch"@,
                Error::NotFound => "contribution not found"@,
                Error::NetworkFailure => "network failure"@,
                Error::MalformedResponse => "malformed response"@,
                Error::ConflictUnresolved { .. } => "unresolved conflict"@,
                Error::StateInvariantViolation => "could not recreate configuration directory"@,
            },
    {
        match self {
            Error::RemoteAddFailed => "could not add remote",
            Error::FetchFailed => "could not fetch branch from remote",
            Error::CheckoutFailed => "could not checkout branch",
            Error::NotFound => "contribution not found",
            Error::NetworkFailure => "network failure",
            Error::MalformedResponse => "malformed response",
            Error::ConflictUnresolved { .. } => "unresolved conflict",
            Error::StateInvariantViolation => "could not recreate configuration directory",
        }
    }
}

} // verus!
