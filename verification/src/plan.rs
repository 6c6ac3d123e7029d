//! The installation plan: every decision of one invocation, as pure data.
//!
//! `install` turns a configuration into the ordered steps of the whole
//! pipeline — kernel first, then its loader. The unverified shell walks the
//! steps in order, aborting at the first failure; it adds no decisions of
//! its own.

use crate::acquire::{spec_acquire_decision, AcquireDecision};
use crate::compose::{
    compose_baseline_clone, compose_baseline_configure, compose_checkout, compose_fixup,
    compose_integral_configure, compose_loader_install, compose_loader_payload_install,
    compose_ninja_all, compose_ninja_install, compose_rel4_clone, compose_sel4_impl_clone,
    compose_xtask_build, artifact_dest_path, artifact_source_path, spec_artifact_dest,
    spec_artifact_source, spec_baseline_clone, spec_baseline_configure, spec_checkout, spec_fixup,
    spec_integral_configure, spec_loader_install, spec_loader_payload_install, spec_ninja,
    spec_rel4_clone, spec_sel4_impl_clone, spec_xtask_build,
};
use crate::config::{spec_kernel_staging, spec_sel4_staging, BuildConfig, SourceSpec};
use crate::runner::StageClass;
use crate::stage::{concat_str, BuildStage, SpecStage};
use vstd::prelude::*;

verus! {

/// How one source tree is acquired.
#[derive(Debug, Clone, PartialEq, Eq)]
pub enum AcquirePlan {
    /// A caller-supplied local tree: used unchanged, never fetched, never
    /// removed.
    Local { path: String },
    /// A tree staged by this tool. When the staging path exists and no
    /// re-fetch is forced, it is reused with no network action; otherwise
    /// any stale tree is removed and `clone` runs with the bounded retry.
    /// After a fresh clone only, `post_clone` and then `fixup` run inside
    /// the tree; a failure of either is a `SourceUnavailable` failure.
    Staged {
        staging_path: String,
        clone: BuildStage,
        force_refetch: bool,
        fixup: Option<BuildStage>,
        post_clone: Option<BuildStage>,
    },
}

/// The mathematical value of an [`AcquirePlan`].
#[verifier::ext_equal]
pub ghost enum SpecAcquirePlan {
    Local { path: Seq<char> },
    Staged {
        staging_path: Seq<char>,
        clone: SpecStage,
        force_refetch: bool,
        fixup: Option<SpecStage>,
        post_clone: Option<SpecStage>,
    },
}

impl View for AcquirePlan {
    type V = SpecAcquirePlan;

    open spec fn view(&self) -> SpecAcquirePlan {
        match self {
            AcquirePlan::Local { path } => SpecAcquirePlan::Local { path: path@ },
            AcquirePlan::Staged { staging_path, clone, force_refetch, fixup, post_clone } => {
                SpecAcquirePlan::Staged {
                    staging_path: staging_path@,
                    clone: clone@,
                    force_refetch: *force_refetch,
                    fixup: fixup.deep_view(),
                    post_clone: post_clone.deep_view(),
                }
            },
        }
    }
}

impl DeepView for AcquirePlan {
    type V = SpecAcquirePlan;

    open spec fn deep_view(&self) -> SpecAcquirePlan {
        self.view()
    }
}

/// The acquisition decision an [`AcquirePlan`] makes once the staging
/// tree's existence is known: the same policy as
/// [`crate::acquire::spec_acquire_decision`], carried by the plan.
pub open spec fn spec_plan_decision(plan: SpecAcquirePlan, staging_exists: bool) -> AcquireDecision {
    match plan {
        SpecAcquirePlan::Local { .. } => AcquireDecision::UseLocal,
        SpecAcquirePlan::Staged { force_refetch, .. } => if staging_exists && !force_refetch {
            AcquireDecision::ReuseStaging
        } else {
            AcquireDecision::Refetch
        },
    }
}

impl AcquirePlan {
    /// Decides whether this acquisition reuses, refetches, or uses a local
    /// tree, given whether the staging tree already exists.
    pub fn decision(&self, staging_exists: bool) -> (d: AcquireDecision)
        ensures
            d == spec_plan_decision(self@, staging_exists),
    {
        match self {
            AcquirePlan::Local { .. } => AcquireDecision::UseLocal,
            AcquirePlan::Staged { force_refetch, .. } => {
                if staging_exists && !*force_refetch {
                    AcquireDecision::ReuseStaging
                } else {
                    AcquireDecision::Refetch
                }
            },
        }
    }
}

/// One step of the installation pipeline.
#[derive(Debug, Clone, PartialEq, Eq)]
pub enum Step {
    /// Make the source tree of `plan` available.
    EnsureSource { plan: AcquirePlan },
    /// Run one external tool invocation; a non-zero exit surfaces the
    /// failure of `class` and aborts the pipeline.
    Run { class: StageClass, stage: BuildStage },
    /// Copy the built kernel image `source` to `dest`, creating the
    /// destination directory tree if absent; a missing `source` after the
    /// preceding successful build is an `ArtifactMissing` failure.
    InstallArtifact { source: String, dest: String },
}

/// The mathematical value of a [`Step`].
#[verifier::ext_equal]
pub ghost enum SpecStep {
    EnsureSource { plan: SpecAcquirePlan },
    Run { class: StageClass, stage: SpecStage },
    InstallArtifact { source: Seq<char>, dest: Seq<char> },
}

impl View for Step {
    type V = SpecStep;

    open spec fn view(&self) -> SpecStep {
        match self {
            Step::EnsureSource { plan } => SpecStep::EnsureSource { plan: plan@ },
            Step::Run { class, stage } => SpecStep::Run { class: *class, stage: stage@ },
            Step::InstallArtifact { source, dest } => SpecStep::InstallArtifact {
                source: source@,
                dest: dest@,
            },
        }
    }
}

impl DeepView for Step {
    type V = SpecStep;

    open spec fn deep_view(&self) -> SpecStep {
        self.view()
    }
}

// ---------------------------------------------------------------------------
// Resolved source directories.
// ---------------------------------------------------------------------------
/// The directory the project kernel is built in: the local tree if one was
/// given, else the staging path.
pub open spec fn spec_kernel_dir(cfg: &BuildConfig) -> Seq<char> {
    match cfg.source {
        SourceSpec::Local { path } => path@,
        SourceSpec::Remote { .. } => spec_kernel_staging(cfg),
    }
}

/// The directory the C kernel implementation is built in: a sibling of a
/// local tree, else its own staging path.
pub open spec fn spec_sel4_dir(cfg: &BuildConfig) -> Seq<char> {
    match cfg.source {
        SourceSpec::Local { path } => path@ + "/../kernel"@,
        SourceSpec::Remote { .. } => spec_sel4_staging(cfg),
    }
}

/// Resolves the project kernel build directory.
pub fn kernel_dir(cfg: &BuildConfig) -> (r: String)
    ensures
        r@ == spec_kernel_dir(cfg),
{
    match &cfg.source {
        SourceSpec::Local { path } => path.clone(),
        SourceSpec::Remote { .. } => cfg.kernel_staging(),
    }
}

/// Resolves the C kernel implementation build directory.
pub fn sel4_dir(cfg: &BuildConfig) -> (r: String)
    ensures
        r@ == spec_sel4_dir(cfg),
{
    match &cfg.source {
        SourceSpec::Local { path } => concat_str(path.as_str(), "/../kernel"),
        SourceSpec::Remote { .. } => cfg.sel4_staging(),
    }
}

// ---------------------------------------------------------------------------
// Acquisition plans.
// ---------------------------------------------------------------------------
/// How the project kernel source is acquired: a local tree as-is, or a
/// shallow staged clone of the chosen branch with the one-time
/// dependency-pin fixup after a fresh clone.
pub open spec fn spec_rel4_acquire(cfg: &BuildConfig) -> SpecAcquirePlan {
    match cfg.source {
        SourceSpec::Local { path } => SpecAcquirePlan::Local { path: path@ },
        SourceSpec::Remote { branch } => SpecAcquirePlan::Staged {
            staging_path: spec_kernel_staging(cfg),
            clone: spec_rel4_clone(spec_kernel_staging(cfg), branch@),
            force_refetch: cfg.force_refetch,
            fixup: Some(spec_fixup(spec_kernel_staging(cfg))),
            post_clone: None,
        },
    }
}

/// How the C kernel implementation is acquired: derived from a local tree,
/// or a full staged clone with no fixup.
pub open spec fn spec_sel4_impl_acquire(cfg: &BuildConfig) -> SpecAcquirePlan {
    match cfg.source {
        SourceSpec::Local { path } => SpecAcquirePlan::Local { path: path@ + "/../kernel"@ },
        SourceSpec::Remote { .. } => SpecAcquirePlan::Staged {
            staging_path: spec_sel4_staging(cfg),
            clone: spec_sel4_impl_clone(spec_sel4_staging(cfg)),
            force_refetch: cfg.force_refetch,
            fixup: None,
            post_clone: None,
        },
    }
}

/// How the upstream baseline kernel is acquired: always a fresh staged
/// clone, followed by a checkout of the pinned revision.
pub open spec fn spec_baseline_acquire(cfg: &BuildConfig, revision: Seq<char>) -> SpecAcquirePlan {
    SpecAcquirePlan::Staged {
        staging_path: spec_sel4_staging(cfg),
        clone: spec_baseline_clone(spec_sel4_staging(cfg)),
        force_refetch: true,
        fixup: None,
        post_clone: Some(spec_checkout(revision, spec_sel4_staging(cfg))),
    }
}

fn rel4_acquire(cfg: &BuildConfig) -> (r: AcquirePlan)
    ensures
        r@ == spec_rel4_acquire(cfg),
{
    match &cfg.source {
        SourceSpec::Local { path } => AcquirePlan::Local { path: path.clone() },
        SourceSpec::Remote { branch } => {
            let staging = cfg.kernel_staging();
            let clone = compose_rel4_clone(staging.as_str(), branch.as_str());
            let fixup = compose_fixup(staging.as_str());
            let r = AcquirePlan::Staged {
                staging_path: staging,
                clone,
                force_refetch: cfg.force_refetch,
                fixup: Some(fixup),
                post_clone: None,
            };
            proof {
                assert(r@ =~~= spec_rel4_acquire(cfg));
            }
            r
        },
    }
}

fn sel4_impl_acquire(cfg: &BuildConfig) -> (r: AcquirePlan)
    ensures
        r@ == spec_sel4_impl_acquire(cfg),
{
    match &cfg.source {
        SourceSpec::Local { path } => AcquirePlan::Local {
            path: concat_str(path.as_str(), "/../kernel"),
        },
        SourceSpec::Remote { .. } => {
            let staging = cfg.sel4_staging();
            let clone = compose_sel4_impl_clone(staging.as_str());
            let r = AcquirePlan::Staged {
                staging_path: staging,
                clone,
                force_refetch: cfg.force_refetch,
                fixup: None,
                post_clone: None,
            };
            proof {
                assert(r@ =~~= spec_sel4_impl_acquire(cfg));
            }
            r
        },
    }
}

fn baseline_acquire(cfg: &BuildConfig, revision: &str) -> (r: AcquirePlan)
    ensures
        r@ == spec_baseline_acquire(cfg, revision@),
{
    let staging = cfg.sel4_staging();
    let clone = compose_baseline_clone(staging.as_str());
    let checkout = compose_checkout(revision, staging.as_str());
    let r = AcquirePlan::Staged {
        staging_path: staging,
        clone,
        force_refetch: true,
        fixup: None,
        post_clone: Some(checkout),
    };
    proof {
        assert(r@ =~~= spec_baseline_acquire(cfg, revision@));
    }
    r
}

// ---------------------------------------------------------------------------
// The three step sequences.
// ---------------------------------------------------------------------------
/// The project kernel flow: acquire the kernel source, build it, install
/// the standalone image in binary mode only, then acquire and build the C
/// kernel implementation against it.
pub open spec fn spec_integral_steps(cfg: &BuildConfig) -> Seq<SpecStep> {
    seq![
        SpecStep::EnsureSource { plan: spec_rel4_acquire(cfg) },
        SpecStep::Run {
            class: StageClass::Build,
            stage: spec_xtask_build(cfg, spec_kernel_dir(cfg)),
        },
    ] + (if cfg.binary_mode {
        seq![
            SpecStep::InstallArtifact {
                source: spec_artifact_source(cfg, spec_kernel_dir(cfg)),
                dest: spec_artifact_dest(cfg),
            },
        ]
    } else {
        Seq::<SpecStep>::empty()
    }) + seq![
        SpecStep::EnsureSource { plan: spec_sel4_impl_acquire(cfg) },
        SpecStep::Run {
            class: StageClass::Build,
            stage: spec_integral_configure(cfg, spec_sel4_dir(cfg)),
        },
        SpecStep::Run { class: StageClass::Build, stage: spec_ninja("all"@, spec_sel4_dir(cfg)) },
        SpecStep::Run {
            class: StageClass::Build,
            stage: spec_ninja("install"@, spec_sel4_dir(cfg)),
        },
    ]
}

/// The upstream baseline flow: a fresh clone pinned to the requested
/// revision, then the upstream configure / build / install sequence.
pub open spec fn spec_baseline_steps(cfg: &BuildConfig, revision: Seq<char>) -> Seq<SpecStep> {
    seq![
        SpecStep::EnsureSource { plan: spec_baseline_acquire(cfg, revision) },
        SpecStep::Run {
            class: StageClass::Build,
            stage: spec_baseline_configure(cfg, spec_sel4_staging(cfg)),
        },
        SpecStep::Run {
            class: StageClass::Build,
            stage: spec_ninja("all"@, spec_sel4_staging(cfg)),
        },
        SpecStep::Run {
            class: StageClass::Build,
            stage: spec_ninja("install"@, spec_sel4_staging(cfg)),
        },
    ]
}

/// The loader flow: two remote installs through the pinned toolchain
/// manager; nothing is staged locally.
pub open spec fn spec_loader_steps(cfg: &BuildConfig) -> Seq<SpecStep> {
    seq![
        SpecStep::Run { class: StageClass::Build, stage: spec_loader_payload_install(cfg) },
        SpecStep::Run { class: StageClass::Build, stage: spec_loader_install(cfg) },
    ]
}

/// The kernel flow of one invocation: the upstream baseline path when a
/// pinned revision is supplied, else the project path. The two paths are
/// mutually exclusive, selected once at resolution time.
pub open spec fn spec_kernel_steps(cfg: &BuildConfig) -> Seq<SpecStep> {
    match cfg.baseline_revision {
        Some(revision) => spec_baseline_steps(cfg, revision@),
        None => spec_integral_steps(cfg),
    }
}

/// The whole pipeline of one invocation: the kernel flow, then the loader
/// flow.
pub open spec fn spec_install_steps(cfg: &BuildConfig) -> Seq<SpecStep> {
    spec_kernel_steps(cfg) + spec_loader_steps(cfg)
}

/// Plans the project kernel flow.
pub fn rel4_integral_steps(cfg: &BuildConfig) -> (r: Vec<Step>)
    ensures
        r.deep_view() == spec_integral_steps(cfg),
{
    let kdir = kernel_dir(cfg);
    let sdir = sel4_dir(cfg);
    let mut steps: Vec<Step> = Vec::new();
    steps.push(Step::EnsureSource { plan: rel4_acquire(cfg) });
    steps.push(
        Step::Run { class: StageClass::Build, stage: compose_xtask_build(cfg, kdir.as_str()) },
    );
    if cfg.binary_mode {
        steps.push(
            Step::InstallArtifact {
                source: artifact_source_path(cfg, kdir.as_str()),
                dest: artifact_dest_path(cfg),
            },
        );
    }
    steps.push(Step::EnsureSource { plan: sel4_impl_acquire(cfg) });
    steps.push(
        Step::Run {
            class: StageClass::Build,
            stage: compose_integral_configure(cfg, sdir.as_str()),
        },
    );
    steps.push(Step::Run { class: StageClass::Build, stage: compose_ninja_all(sdir.as_str()) });
    steps.push(
        Step::Run { class: StageClass::Build, stage: compose_ninja_install(sdir.as_str()) },
    );
    proof {
        assert(steps.deep_view() =~~= spec_integral_steps(cfg));
    }
    steps
}

/// Plans the upstream baseline kernel flow for a pinned revision.
pub fn sel4_baseline_steps(cfg: &BuildConfig, revision: &str) -> (r: Vec<Step>)
    ensures
        r.deep_view() == spec_baseline_steps(cfg, revision@),
{
    let sdir = cfg.sel4_staging();
    let mut steps: Vec<Step> = Vec::new();
    steps.push(Step::EnsureSource { plan: baseline_acquire(cfg, revision) });
    steps.push(
        Step::Run {
            class: StageClass::Build,
            stage: compose_baseline_configure(cfg, sdir.as_str()),
        },
    );
    steps.push(Step::Run { class: StageClass::Build, stage: compose_ninja_all(sdir.as_str()) });
    steps.push(
        Step::Run { class: StageClass::Build, stage: compose_ninja_install(sdir.as_str()) },
    );
    proof {
        assert(steps.deep_view() =~~= spec_baseline_steps(cfg, revision@));
    }
    steps
}

/// Plans the loader flow.
pub fn kernel_loader_steps(cfg: &BuildConfig) -> (r: Vec<Step>)
    ensures
        r.deep_view() == spec_loader_steps(cfg),
{
    let mut steps: Vec<Step> = Vec::new();
    steps.push(
        Step::Run { class: StageClass::Build, stage: compose_loader_payload_install(cfg) },
    );
    steps.push(Step::Run { class: StageClass::Build, stage: compose_loader_install(cfg) });
    proof {
        assert(steps.deep_view() =~~= spec_loader_steps(cfg));
    }
    steps
}

/// Plans the kernel flow: the baseline path exactly when a pinned baseline
/// revision is supplied, else the project path.
pub fn install_kernel(cfg: &BuildConfig) -> (r: Vec<Step>)
    ensures
        r.deep_view() == spec_kernel_steps(cfg),
{
    match &cfg.baseline_revision {
        Some(revision) => sel4_baseline_steps(cfg, revision.as_str()),
        None => rel4_integral_steps(cfg),
    }
}

/// Plans one whole invocation: the kernel flow, then the loader flow.
pub fn install(cfg: &BuildConfig) -> (r: Vec<Step>)
    ensures
        r.deep_view() == spec_install_steps(cfg),
{
    let mut steps = install_kernel(cfg);
    let mut loader = kernel_loader_steps(cfg);
    steps.append(&mut loader);
    proof {
        assert(steps.deep_view() =~~= spec_install_steps(cfg));
    }
    steps
}

// ---------------------------------------------------------------------------
// Laws about the plan's shape.
// ---------------------------------------------------------------------------
/// Law: a planned acquisition decides exactly as the acquisition policy
/// does for the source it was planned from — reuse when the staging tree
/// exists and no re-fetch is forced, fetch otherwise, and a local tree
/// untouched.
pub proof fn lemma_plan_decision_matches_policy(cfg: &BuildConfig, staging_exists: bool)
    ensures
        spec_plan_decision(spec_rel4_acquire(cfg), staging_exists) == spec_acquire_decision(
            cfg.source,
            cfg.force_refetch,
            staging_exists,
        ),
        spec_plan_decision(spec_sel4_impl_acquire(cfg), staging_exists) == spec_acquire_decision(
            cfg.source,
            cfg.force_refetch,
            staging_exists,
        ),
{
}

/// Law: the upstream baseline source is always removed and re-cloned,
/// whatever state its staging tree was in.
pub proof fn lemma_baseline_always_refetches(
    cfg: &BuildConfig,
    revision: Seq<char>,
    staging_exists: bool,
)
    ensures
        spec_plan_decision(spec_baseline_acquire(cfg, revision), staging_exists)
            == AcquireDecision::Refetch,
{
}

/// Law: a pinned baseline revision routes the kernel flow to the upstream
/// build-description path; without one the project path is taken. The two
/// never mix.
pub proof fn lemma_baseline_routing(cfg: &BuildConfig)
    ensures
        cfg.baseline_revision matches Some(revision) ==> spec_kernel_steps(cfg)
            == spec_baseline_steps(cfg, revision@),
        cfg.baseline_revision is None ==> spec_kernel_steps(cfg) == spec_integral_steps(cfg),
{
}

/// Law: the project flow installs a standalone artifact exactly when binary
/// mode is on — lib mode plans no installer step at all.
pub proof fn lemma_artifact_only_in_binary_mode(cfg: &BuildConfig)
    ensures
        !cfg.binary_mode ==> spec_integral_steps(cfg).len() == 6,
        !cfg.binary_mode ==> forall|i: int|
            0 <= i < spec_integral_steps(cfg).len() ==> !(#[trigger] spec_integral_steps(cfg)[i]
                is InstallArtifact),
        cfg.binary_mode ==> spec_integral_steps(cfg).len() == 7,
        cfg.binary_mode ==> spec_integral_steps(cfg)[2] is InstallArtifact,
        cfg.binary_mode ==> forall|i: int|
            0 <= i < spec_integral_steps(cfg).len() && i != 2 ==> !(
            #[trigger] spec_integral_steps(cfg)[i] is InstallArtifact),
{
}

} // verus!
