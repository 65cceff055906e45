//! Ownership markers: which directories the launcher may destroy.
//!
//! Each operation is decided here from what a probe of the filesystem found
//! at the path; the caller performs the returned action.
use vstd::prelude::*;
use crate::error::LauncherError;

verus! {

/// Name of the zero-length sentinel file that marks a managed directory.
pub const MARKER_FILENAME: &'static str = ".launcher-managed";

/// What a probe of the filesystem finds at a path.
#[derive(Clone, Copy, Debug, PartialEq, Eq, Structural)]
pub enum DirProbe {
    /// Nothing exists at the path.
    Absent,
    /// Something exists at the path and it is not a directory.
    NotADirectory,
    /// A directory exists; `marked` tells whether it holds the marker file.
    Directory { marked: bool },
}

/// What the caller has to do to the filesystem at the path.
#[derive(Clone, Copy, Debug, PartialEq, Eq, Structural)]
pub enum DirAction {
    /// Leave the path untouched.
    Nothing,
    /// Create the directory and write the marker into it before any other use.
    CreateMarked,
    /// Write the marker into the existing directory.
    WriteMarker,
    /// Delete the directory and everything below it.
    RemoveAll,
}

/// Ownership of the path: `Ok(false)` when absent, the marker's presence for a
/// directory, an error for anything else.
pub open spec fn ownership_of(p: DirProbe) -> Result<bool, LauncherError> {
    match p {
        DirProbe::Absent => Ok(false),
        DirProbe::NotADirectory => Err(LauncherError::NotADirectory),
        DirProbe::Directory { marked } => Ok(marked),
    }
}

/// Creating an owned directory: create when absent, nothing when already
/// owned, refuse foreign data.
pub open spec fn create_plan(p: DirProbe) -> Result<DirAction, LauncherError> {
    match p {
        DirProbe::Absent => Ok(DirAction::CreateMarked),
        DirProbe::NotADirectory => Err(LauncherError::NotADirectory),
        DirProbe::Directory { marked } => if marked {
            Ok(DirAction::Nothing)
        } else {
            Err(LauncherError::OwnershipConflict)
        },
    }
}

/// Removing an owned directory: delete only what carries the marker.
pub open spec fn remove_plan(p: DirProbe) -> Result<DirAction, LauncherError> {
    match ownership_of(p) {
        Ok(owned) => if owned {
            Ok(DirAction::RemoveAll)
        } else {
            Ok(DirAction::Nothing)
        },
        Err(e) => Err(e),
    }
}

/// Marking a directory: only an existing directory can carry the marker.
pub open spec fn mark_plan(p: DirProbe) -> Result<DirAction, LauncherError> {
    match p {
        DirProbe::Directory { .. } => Ok(DirAction::WriteMarker),
        _ => Err(LauncherError::NotADirectory),
    }
}

/// What a probe of the path finds once the action has been carried out.
pub open spec fn probe_after(p: DirProbe, a: DirAction) -> DirProbe {
    match a {
        DirAction::Nothing => p,
        DirAction::CreateMarked => DirProbe::Directory { marked: true },
        DirAction::WriteMarker => DirProbe::Directory { marked: true },
        DirAction::RemoveAll => DirProbe::Absent,
    }
}

/// Whether the launcher owns the directory that the probe describes.
pub fn verify_ownership(probe: DirProbe) -> (r: Result<bool, LauncherError>)
    ensures
        r == ownership_of(probe),
{
    match probe {
        DirProbe::Absent => Ok(false),
        DirProbe::NotADirectory => Err(LauncherError::NotADirectory),
        DirProbe::Directory { marked } => Ok(marked),
    }
}

/// The action that creates an owned directory where the probe looked.
pub fn create_owned_directory(probe: DirProbe) -> (r: Result<DirAction, LauncherError>)
    ensures
        r == create_plan(probe),
{
    match verify_ownership(probe) {
        Err(e) => Err(e),
        Ok(owned) => {
            if owned {
                Ok(DirAction::Nothing)
            } else if probe == DirProbe::Absent {
                Ok(DirAction::CreateMarked)
            } else {
                Err(LauncherError::OwnershipConflict)
            }
        },
    }
}

/// The action that removes the directory if, and only if, it is owned.
pub fn safe_remove_owned_directory(probe: DirProbe) -> (r: Result<DirAction, LauncherError>)
    ensures
        r == remove_plan(probe),
{
    match verify_ownership(probe) {
        Err(e) => Err(e),
        Ok(owned) => if owned {
            Ok(DirAction::RemoveAll)
        } else {
            Ok(DirAction::Nothing)
        },
    }
}

/// The action that marks an existing directory as owned.
pub fn mark_as_owned(probe: DirProbe) -> (r: Result<DirAction, LauncherError>)
    ensures
        r == mark_plan(probe),
{
    match probe {
        DirProbe::Directory { .. } => Ok(DirAction::WriteMarker),
        _ => Err(LauncherError::NotADirectory),
    }
}

/// Creating an owned directory and then removing it leaves nothing at the
/// path, wherever creation succeeds (the path is absent or already owned).
pub proof fn create_then_remove_leaves_absent(p: DirProbe)
    requires
        create_plan(p) is Ok,
    ensures
        remove_plan(probe_after(p, create_plan(p)->Ok_0)) is Ok,
        probe_after(
            probe_after(p, create_plan(p)->Ok_0),
            remove_plan(probe_after(p, create_plan(p)->Ok_0))->Ok_0,
        ) == DirProbe::Absent,
{
}

/// Removal of a directory without the marker succeeds and touches nothing.
pub proof fn remove_spares_unowned(p: DirProbe)
    requires
        p == (DirProbe::Directory { marked: false }),
    ensures
        remove_plan(p) == Ok::<DirAction, LauncherError>(DirAction::Nothing),
        probe_after(p, remove_plan(p)->Ok_0) == p,
{
}

/// Creating an owned directory is idempotent: on an owned directory it
/// succeeds, does nothing, and succeeds again.
pub proof fn create_is_idempotent(p: DirProbe)
    requires
        p == (DirProbe::Directory { marked: true }),
    ensures
        create_plan(p) == Ok::<DirAction, LauncherError>(DirAction::Nothing),
        probe_after(p, create_plan(p)->Ok_0) == p,
        create_plan(probe_after(p, create_plan(p)->Ok_0)) == Ok::<DirAction, LauncherError>(
            DirAction::Nothing,
        ),
{
}

} // verus!
