//! The failure taxonomy of the installer.

use vstd::prelude::*;

verus! {

/// Every way the installation pipeline can fail. Each stage of the pipeline
/// surfaces exactly one of these; the first failure aborts the remaining
/// pipeline.
#[derive(Clone, Copy, Debug, PartialEq, Eq, Structural)]
pub enum InstallError {
    /// The requested platform is not supported; rejected before any external
    /// process is spawned.
    ConfigValidation,
    /// Cloning the remote source failed on every allowed attempt, or the
    /// post-clone fixup of a fresh tree failed.
    SourceUnavailable,
    /// A configure, build, or install command exited non-zero.
    BuildFailure,
    /// A build reported success but the expected output file is absent.
    ArtifactMissing,
    /// An external tool could not be started at all.
    ProcessSpawnFailure,
}

impl InstallError {
    /// A short human-readable description of the failure.
    pub fn message(&self) -> (r: &'static str)
        ensures
            *self is ConfigValidation ==> r@ == "unsupported platform"@,
            *self is SourceUnavailable ==> r@ == "source unavailable"@,
            *self is BuildFailure ==> r@ == "build command failed"@,
            *self is ArtifactMissing ==> r@ == "artifact not found post-build"@,
            *self is ProcessSpawnFailure ==> r@ == "external tool could not start"@,
    {
        match self {
            InstallError::ConfigValidation => "unsupported platform",
            InstallError::SourceUnavailable => "source unavailable",
            InstallError::BuildFailure => "build command failed",
            InstallError::ArtifactMissing => "artifact not found post-build",
            InstallError::ProcessSpawnFailure => "external tool could not start",
        }
    }
}

} // verus!
