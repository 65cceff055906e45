use vstd::prelude::*;

verus! {

/// Every way an operation of the engine can fail.
#[derive(Debug)]
pub enum LauncherError {
    /// A caller-supplied path or an archive entry would leave the managed root.
    PathSecurity { path: String },
    /// The downloaded payload does not hash to the pinned digest.
    Integrity { expected: String, actual: String },
    /// A directory exists at a managed path but carries no ownership marker.
    OwnershipConflict,
    /// The path exists but is not a directory.
    NotADirectory,
    /// The path names a directory where a file is expected.
    NotAFile,
    /// The managed root itself was named as a target.
    RootTarget,
    /// A file that the operation needs is missing.
    MissingFile { path: String },
    /// The backend process could not be started.
    ProcessLaunch { detail: String },
    /// The backend did not announce readiness in time.
    ProcessTimeout { seconds: u64, diagnostics: String },
    /// The backend exited before announcing readiness.
    ProcessCrash { diagnostics: String },
    /// The configured port is taken by another program.
    PortInUse { port: u16 },
    /// The configured port is neither `auto` nor a port number.
    InvalidPort { value: String },
    /// No free port could be found.
    NoFreePort,
    /// An archive lacks the entry the operation needs.
    MissingEntry { name: String },
    /// Extraction failed and removing the partial installation failed too.
    RollbackFailed { cause: Box<LauncherError>, rollback: Box<LauncherError> },
    /// A failure reported by the operating system or a collaborator.
    Io { detail: String },
}

} // verus!
