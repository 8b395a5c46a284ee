//! Workflow engine that applies a curated set of remote pull requests and
//! local patch files on top of a git repository's current branch, producing a
//! new branch with the merged result.
//!
//! The repository's externally visible state (remotes, branches, the branch
//! that is checked out, the state of the index) is modelled explicitly, and
//! every decision the engine makes — which command to issue next, how to
//! recover when one fails — is verified against that model.  The outcome of
//! each external command (the version-control tool, the contribution API) is
//! an input to the engine, so every contract holds whatever the outside world
//! answers.  The thin driver that actually spawns the commands lives outside
//! the library.

pub mod backup;
pub mod error;
pub mod executor;
pub mod flags;
pub mod gen_patch;
pub mod git_commands;
pub mod repo;
pub mod workflow;
