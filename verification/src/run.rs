//! Run-level setup: resolving the remote's default branch and deciding
//! whether the run proceeds at all.
//!
//! The handshake with the `origin` remote (find it, connect, query the
//! advertised default branch, always disconnect) is the driver's work; this
//! module decides what its outcome means. Every setup failure is fatal and
//! aborts the run before any branch is examined; a successful resolution
//! yields the short name that every branch is protected against.

use vstd::prelude::*;
use vstd::utf8::{decode_utf8, valid_utf8};
use crate::refname::{strip_heads_prefix, strip_refs_heads};

verus! {

/// A failure that aborts the whole run before any branch is examined.
#[derive(Clone, Copy, Debug, PartialEq, Eq, Structural)]
pub enum FatalError {
    /// The current working directory could not be determined.
    WorkingDirUnavailable,
    /// No repository could be opened at the working directory.
    RepoOpenFailed,
    /// The repository's local branches could not be enumerated.
    BranchEnumerationFailed,
    /// The repository has no remote named `origin`.
    RemoteNotFound,
    /// Connecting to the `origin` remote failed.
    ConnectFailed,
    /// The connected remote did not advertise a default branch.
    DefaultBranchUnavailable,
    /// The advertised default branch name is not valid text.
    DefaultBranchDecodeError,
}

/// How far the handshake with the `origin` remote got, as the driver saw
/// it.
pub enum DefaultBranchQuery {
    /// The repository has no remote named `origin`.
    RemoteMissing,
    /// The connection to the remote could not be opened.
    ConnectFailed,
    /// The connected remote did not yield a default branch.
    QueryFailed,
    /// The remote advertised its default branch as these bytes.
    Advertised { bytes: Vec<u8> },
}

/// Relies on std::str::from_utf8: it returns `Ok` exactly when the bytes
/// are valid UTF-8, and then yields the text they encode.
#[verifier::external_body]
fn utf8_string_of(bytes: &Vec<u8>) -> (r: Option<String>)
    ensures
        r is Some <==> valid_utf8(bytes@),
        r matches Some(s) ==> s@ == decode_utf8(bytes@),
{
    match std::str::from_utf8(bytes.as_slice()) {
        Ok(s) => Some(s.to_owned()),
        Err(_) => None,
    }
}

/// Turns the handshake outcome into the run's default-branch resolution.
/// Every failure is fatal — the default-branch protection downstream
/// depends on the name — and the advertised bytes must decode as text.
pub fn resolve_default_branch(query: DefaultBranchQuery) -> (r: Result<String, FatalError>)
    ensures
        query is RemoteMissing ==> r == Err::<String, FatalError>(FatalError::RemoteNotFound),
        query is ConnectFailed ==> r == Err::<String, FatalError>(FatalError::ConnectFailed),
        query is QueryFailed ==> r == Err::<String, FatalError>(
            FatalError::DefaultBranchUnavailable,
        ),
        query matches DefaultBranchQuery::Advertised { bytes } ==> (if valid_utf8(bytes@) {
            r matches Ok(name) && name@ == decode_utf8(bytes@)
        } else {
            r == Err::<String, FatalError>(FatalError::DefaultBranchDecodeError)
        }),
{
    match query {
        DefaultBranchQuery::RemoteMissing => Err(FatalError::RemoteNotFound),
        DefaultBranchQuery::ConnectFailed => Err(FatalError::ConnectFailed),
        DefaultBranchQuery::QueryFailed => Err(FatalError::DefaultBranchUnavailable),
        DefaultBranchQuery::Advertised { bytes } => match utf8_string_of(&bytes) {
            Some(name) => Ok(name),
            None => Err(FatalError::DefaultBranchDecodeError),
        },
    }
}

/// What the run does after setup: abort before any branch is examined, or
/// process the branches, protecting the given short name.
pub enum RunPlan {
    /// A fatal setup failure: exit without examining any branch.
    Abort { error: FatalError },
    /// Process every enumerated branch, never deleting the one whose short
    /// name is `default_short`.
    Process { default_short: String },
}

/// Decides the run from the default-branch resolution: a fatal setup error
/// aborts before any branch is examined; otherwise the branches are
/// processed with the resolved name stripped to its short form.
pub fn plan_run(default_branch: Result<String, FatalError>) -> (p: RunPlan)
    ensures
        default_branch matches Err(e) ==> (p matches RunPlan::Abort { error } && error == e),
        default_branch matches Ok(name) ==> (p matches RunPlan::Process { default_short }
            && default_short@ == strip_heads_prefix(name@)),
{
    match default_branch {
        Err(error) => RunPlan::Abort { error },
        Ok(name) => RunPlan::Process { default_short: strip_refs_heads(name.as_str()) },
    }
}

/// The process exit code for a plan: zero for a run that completes, even
/// when individual branches reported errors; nonzero only on a fatal setup
/// failure.
pub fn exit_code(plan: &RunPlan) -> (c: i32)
    ensures
        c == 0 <==> plan is Process,
{
    match plan {
        RunPlan::Process { .. } => 0,
        RunPlan::Abort { .. } => 1,
    }
}

} // verus!
