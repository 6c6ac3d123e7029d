//! Tests of option resolution, acquisition policy, retry, and failure
//! mapping.

use rel4_install::acquire::{acquire_decision, clone_step, AcquireDecision, CloneProgress};
use rel4_install::config::{resolve, Options, Platform, SourceSpec};
use rel4_install::error::InstallError;
use rel4_install::runner::{artifact_outcome, run_outcome, RunEvent, StageClass};

fn raw_options() -> Options {
    Options {
        platform: String::from("qemu-arm-virt"),
        mcs: false,
        nofastpath: false,
        bin: false,
        sel4_prefix: String::from("/workspace/.seL4"),
        local: None,
        branch: String::from("master"),
        force: false,
        sel4_baseline: None,
        staging_root: String::from("/tmp"),
    }
}

#[test]
fn resolve_qemu_defaults() {
    let cfg = resolve(&raw_options()).unwrap();
    assert_eq!(cfg.platform, Platform::QemuArmVirt);
    assert!(!cfg.mcs);
    assert!(cfg.fastpath_enabled);
    assert!(!cfg.binary_mode);
    assert_eq!(cfg.install_prefix, "/workspace/.seL4");
    assert_eq!(
        cfg.source,
        SourceSpec::Remote { branch: String::from("master") }
    );
    assert!(!cfg.force_refetch);
    assert_eq!(cfg.baseline_revision, None);
    assert_eq!(cfg.staging_root, "/tmp");
}

#[test]
fn resolve_spike_with_modes() {
    let mut opts = raw_options();
    opts.platform = String::from("spike");
    opts.mcs = true;
    opts.nofastpath = true;
    opts.bin = true;
    let cfg = resolve(&opts).unwrap();
    assert_eq!(cfg.platform, Platform::Spike);
    assert!(cfg.mcs);
    assert!(!cfg.fastpath_enabled);
    assert!(cfg.binary_mode);
}

#[test]
fn resolve_local_source() {
    let mut opts = raw_options();
    opts.local = Some(String::from("/src/kernel"));
    let cfg = resolve(&opts).unwrap();
    assert_eq!(
        cfg.source,
        SourceSpec::Local { path: String::from("/src/kernel") }
    );
}

#[test]
fn resolve_rejects_unsupported_platform() {
    let mut opts = raw_options();
    opts.platform = String::from("mips64");
    assert_eq!(resolve(&opts), Err(InstallError::ConfigValidation));
}

#[test]
fn resolve_keeps_baseline_revision() {
    let mut opts = raw_options();
    opts.sel4_baseline = Some(String::from("abc123"));
    let cfg = resolve(&opts).unwrap();
    assert_eq!(cfg.baseline_revision, Some(String::from("abc123")));
}

#[test]
fn populated_staging_is_reused_without_refetch() {
    let source = SourceSpec::Remote { branch: String::from("master") };
    assert_eq!(
        acquire_decision(&source, false, true),
        AcquireDecision::ReuseStaging
    );
}

#[test]
fn missing_staging_is_fetched() {
    let source = SourceSpec::Remote { branch: String::from("master") };
    assert_eq!(acquire_decision(&source, false, false), AcquireDecision::Refetch);
}

#[test]
fn force_refetch_always_reclones() {
    let source = SourceSpec::Remote { branch: String::from("master") };
    assert_eq!(acquire_decision(&source, true, true), AcquireDecision::Refetch);
    assert_eq!(acquire_decision(&source, true, false), AcquireDecision::Refetch);
}

#[test]
fn local_source_is_never_fetched() {
    let source = SourceSpec::Local { path: String::from("/src/kernel") };
    assert_eq!(acquire_decision(&source, false, false), AcquireDecision::UseLocal);
    assert_eq!(acquire_decision(&source, true, true), AcquireDecision::UseLocal);
}

#[test]
fn clone_retry_stops_after_three_attempts() {
    assert_eq!(clone_step(1, false), CloneProgress::Retry);
    assert_eq!(clone_step(2, false), CloneProgress::Retry);
    assert_eq!(clone_step(3, false), CloneProgress::Unavailable);
}

#[test]
fn clone_success_on_second_attempt_stops_retrying() {
    assert_eq!(clone_step(1, false), CloneProgress::Retry);
    assert_eq!(clone_step(2, true), CloneProgress::Succeeded);
}

#[test]
fn clone_success_on_first_attempt() {
    assert_eq!(clone_step(1, true), CloneProgress::Succeeded);
}

#[test]
fn run_outcome_maps_exit_statuses() {
    assert_eq!(run_outcome(StageClass::Build, RunEvent::Exited { ok: true }), Ok(()));
    assert_eq!(
        run_outcome(StageClass::Build, RunEvent::Exited { ok: false }),
        Err(InstallError::BuildFailure)
    );
    assert_eq!(
        run_outcome(StageClass::Acquisition, RunEvent::Exited { ok: false }),
        Err(InstallError::SourceUnavailable)
    );
    assert_eq!(
        run_outcome(StageClass::SourceFixup, RunEvent::Exited { ok: false }),
        Err(InstallError::SourceUnavailable)
    );
    assert_eq!(
        run_outcome(StageClass::Build, RunEvent::SpawnFailed),
        Err(InstallError::ProcessSpawnFailure)
    );
}

#[test]
fn missing_artifact_is_distinct_from_build_failure() {
    let missing = artifact_outcome(false);
    assert_eq!(missing, Err(InstallError::ArtifactMissing));
    assert_ne!(missing, Err(InstallError::BuildFailure));
    assert_eq!(artifact_outcome(true), Ok(()));
}

#[test]
fn error_messages_name_the_failure() {
    assert_eq!(InstallError::ConfigValidation.message(), "unsupported platform");
    assert_eq!(InstallError::SourceUnavailable.message(), "source unavailable");
    assert_eq!(InstallError::BuildFailure.message(), "build command failed");
    assert_eq!(InstallError::ArtifactMissing.message(), "artifact not found post-build");
    assert_eq!(
        InstallError::ProcessSpawnFailure.message(),
        "external tool could not start"
    );
}
