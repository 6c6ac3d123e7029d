//! Mapping process outcomes to typed failures.
//!
//! The unverified shell spawns each composed stage and reports back only
//! whether the process started and whether it exited zero. The functions here
//! decide what that outcome means for the pipeline.

use crate::error::InstallError;
use vstd::prelude::*;

verus! {

/// What kind of work a stage does, which decides the failure it surfaces.
#[derive(Clone, Copy, Debug, PartialEq, Eq, Structural)]
pub enum StageClass {
    /// Fetching a remote source tree (clone or post-clone checkout).
    Acquisition,
    /// The one-time dependency-pin fixup after a fresh clone.
    SourceFixup,
    /// Configure, compile, or install work.
    Build,
}

/// How one spawn of an external tool went.
#[derive(Clone, Copy, Debug, PartialEq, Eq, Structural)]
pub enum RunEvent {
    /// The tool could not be started at all.
    SpawnFailed,
    /// The tool ran to completion; `ok` is whether it exited zero.
    Exited { ok: bool },
}

/// The failure a stage of the given class surfaces when its tool exits
/// non-zero.
pub open spec fn class_failure(class: StageClass) -> InstallError {
    match class {
        StageClass::Acquisition => InstallError::SourceUnavailable,
        StageClass::SourceFixup => InstallError::SourceUnavailable,
        StageClass::Build => InstallError::BuildFailure,
    }
}

/// Converts one process outcome into the stage's result.
///
/// A tool that could not start and a tool that exited non-zero are both
/// stage failures; success is solely "process exited zero".
pub fn run_outcome(class: StageClass, event: RunEvent) -> (r: Result<(), InstallError>)
    ensures
        r is Ok <==> event == (RunEvent::Exited { ok: true }),
        event is SpawnFailed ==> r == Err::<(), InstallError>(InstallError::ProcessSpawnFailure),
        event == (RunEvent::Exited { ok: false }) ==> r == Err::<(), InstallError>(
            class_failure(class),
        ),
{
    match event {
        RunEvent::SpawnFailed => Err(InstallError::ProcessSpawnFailure),
        RunEvent::Exited { ok: true } => Ok(()),
        RunEvent::Exited { ok: false } => match class {
            StageClass::Acquisition => Err(InstallError::SourceUnavailable),
            StageClass::SourceFixup => Err(InstallError::SourceUnavailable),
            StageClass::Build => Err(InstallError::BuildFailure),
        },
    }
}

/// Decides the installer step's result once the build has succeeded: a
/// missing artifact is its own failure, distinct from a build failure, to
/// aid diagnosis of build-script drift.
pub fn artifact_outcome(artifact_present: bool) -> (r: Result<(), InstallError>)
    ensures
        artifact_present <==> r is Ok,
        !artifact_present ==> r == Err::<(), InstallError>(InstallError::ArtifactMissing),
        r != Err::<(), InstallError>(InstallError::BuildFailure),
{
    if artifact_present {
        Ok(())
    } else {
        Err(InstallError::ArtifactMissing)
    }
}

} // verus!
