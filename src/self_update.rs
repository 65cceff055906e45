//! Self-replacement of the launcher and its completion on the next start.
//!
//! The pending-update marker is written before the running executable is
//! replaced, so that a crash during the replacement still leaves a record
//! that the next start completes.
use vstd::prelude::*;
use crate::error::LauncherError;
use crate::paths::{join_path, join_path_str, resolved, AppState};
use crate::registry::{VersionRecord, LAUNCHER_ID};

verus! {

/// File name of the pending-update marker, beside the executable.
pub const PENDING_MARKER_FILENAME: &'static str = "update_pending.json";

/// File name of the version registry, beside the executable.
pub const REGISTRY_FILENAME: &'static str = "local_versions.json";

/// Directory under the root in which updates are unpacked.
pub const UPDATE_WORKSPACE_DIR: &'static str = "_temp_updates";

/// The executable entry that an update archive must hold.
pub const LAUNCHER_BINARY_NAME: &'static str = "yaesandbox-launcher.exe";

/// What completing a pending update writes and deletes.
pub struct FinalizePlan {
    /// The registry to persist, if any.
    pub write: Option<VersionRecord>,
    /// Whether the pending-update marker is to be deleted afterwards.
    pub remove_marker: bool,
}

/// The registry a finalize starts from: the stored one, or an empty one.
pub open spec fn stored_or_empty(stored: Option<VersionRecord>) -> Map<Seq<char>, Seq<char>> {
    match stored {
        Some(s) => s.view(),
        None => Map::empty(),
    }
}

/// The registry after a finalize: the marker's version recorded for the
/// launcher when a marker names one, the registry unchanged otherwise.
pub open spec fn finalized(marker: Option<Seq<char>>, registry: Map<Seq<char>, Seq<char>>) -> Map<
    Seq<char>,
    Seq<char>,
> {
    match marker {
        Some(v) => registry.insert(LAUNCHER_ID@, v),
        None => registry,
    }
}

/// Completes an update left pending: with a marker naming a version, the
/// registry records that version for the launcher and the marker goes;
/// without a marker nothing is written or deleted.
pub fn finalize_pending_update(marker_version: Option<String>, stored: Option<VersionRecord>) -> (r:
    FinalizePlan)
    ensures
        r.write is Some == marker_version is Some,
        r.remove_marker == marker_version is Some,
        r.write matches Some(w) ==> w.view() == finalized(
            Some(marker_version->Some_0@),
            stored_or_empty(stored),
        ),
{
    match marker_version {
        None => FinalizePlan { write: None, remove_marker: false },
        Some(v) => {
            let mut versions = match stored {
                Some(s) => s,
                None => VersionRecord::new(),
            };
            versions.set(String::from_str(LAUNCHER_ID), v);
            FinalizePlan { write: Some(versions), remove_marker: true }
        },
    }
}

/// Finalizing with a marker records its version for the launcher and keeps
/// every other component; finalizing again, with the marker gone, changes
/// nothing.
pub proof fn finalize_completes_then_rests(v: Seq<char>, registry: Map<Seq<char>, Seq<char>>)
    ensures
        finalized(Some(v), registry).contains_key(LAUNCHER_ID@),
        finalized(Some(v), registry)[LAUNCHER_ID@] == v,
        forall|k: Seq<char>|
            k != LAUNCHER_ID@ ==> (#[trigger] finalized(Some(v), registry).contains_key(k)
                == registry.contains_key(k)) && (registry.contains_key(k) ==> finalized(
                Some(v),
                registry,
            )[k] == registry[k]),
        finalized(None, finalized(Some(v), registry)) == finalized(Some(v), registry),
{
}

/// Steps of a self-update, in the order they are taken.
#[derive(Clone, Copy, Debug, PartialEq, Eq, Structural)]
pub enum SelfUpdateStep {
    /// Clear and recreate the owned workspace directory.
    PrepareWorkspace,
    /// Extract the new executable into the workspace.
    ExtractBinary,
    /// Persist the pending-update marker beside the executable.
    WriteMarker,
    /// Replace the running executable with the new one.
    ReplaceExecutable,
    /// Restart into the new executable.
    Restart,
    /// Nothing left to do.
    Done,
    /// A step failed; the steps after it are not taken.
    Failed,
}

/// The step after `s`, given whether `s` succeeded.
pub open spec fn step_after(s: SelfUpdateStep, ok: bool) -> SelfUpdateStep {
    if !ok && s != SelfUpdateStep::Done {
        SelfUpdateStep::Failed
    } else {
        match s {
            SelfUpdateStep::PrepareWorkspace => SelfUpdateStep::ExtractBinary,
            SelfUpdateStep::ExtractBinary => SelfUpdateStep::WriteMarker,
            SelfUpdateStep::WriteMarker => SelfUpdateStep::ReplaceExecutable,
            SelfUpdateStep::ReplaceExecutable => SelfUpdateStep::Restart,
            SelfUpdateStep::Restart => SelfUpdateStep::Done,
            SelfUpdateStep::Done => SelfUpdateStep::Done,
            SelfUpdateStep::Failed => SelfUpdateStep::Failed,
        }
    }
}

/// The step after `step`, given whether it succeeded.
pub fn next_step(step: SelfUpdateStep, ok: bool) -> (r: SelfUpdateStep)
    ensures
        r == step_after(step, ok),
{
    if !ok && step != SelfUpdateStep::Done {
        return SelfUpdateStep::Failed;
    }
    match step {
        SelfUpdateStep::PrepareWorkspace => SelfUpdateStep::ExtractBinary,
        SelfUpdateStep::ExtractBinary => SelfUpdateStep::WriteMarker,
        SelfUpdateStep::WriteMarker => SelfUpdateStep::ReplaceExecutable,
        SelfUpdateStep::ReplaceExecutable => SelfUpdateStep::Restart,
        SelfUpdateStep::Restart => SelfUpdateStep::Done,
        SelfUpdateStep::Done => SelfUpdateStep::Done,
        SelfUpdateStep::Failed => SelfUpdateStep::Failed,
    }
}

/// The replacement of the executable is reached only from a marker that
/// was written successfully; a failure before it never reaches it.
pub proof fn marker_precedes_replace(s: SelfUpdateStep, ok: bool)
    ensures
        step_after(s, ok) == SelfUpdateStep::ReplaceExecutable ==> s == SelfUpdateStep::WriteMarker
            && ok,
        step_after(SelfUpdateStep::Failed, ok) == SelfUpdateStep::Failed,
{
}

/// Where a self-update reads its archive and unpacks it.
pub struct SelfUpdatePaths {
    pub archive: String,
    pub workspace: String,
}

/// Resolves the update archive strictly inside the root, and the workspace
/// directory the archive is unpacked in.
pub fn plan_self_update(state: &AppState, zip_relative_path: &str) -> (r: Result<
    SelfUpdatePaths,
    LauncherError,
>)
    ensures
        resolved(state.app_dir@, zip_relative_path@) is None ==> (r matches Err(
            LauncherError::PathSecurity { path },
        ) && path@ == zip_relative_path@),
        resolved(state.app_dir@, zip_relative_path@) matches Some(a) ==> (r matches Ok(p)
            && p.archive@ == a && p.workspace@ == join_path(state.app_dir@, UPDATE_WORKSPACE_DIR@)),
{
    let archive = match state.resolve_safe_path(zip_relative_path) {
        Ok(p) => p,
        Err(e) => return Err(e),
    };
    let workspace = join_path_str(state.app_dir.as_str(), UPDATE_WORKSPACE_DIR);
    Ok(SelfUpdatePaths { archive, workspace })
}

} // verus!
