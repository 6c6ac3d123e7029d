//! Option resolution: raw flag values become a validated configuration.

use crate::error::InstallError;
use crate::stage::concat_str;
use vstd::prelude::*;

verus! {

/// A supported target platform. Resolution fails before any external process
/// runs if the requested platform is not one of these.
#[derive(Clone, Copy, Debug, PartialEq, Eq, Structural)]
pub enum Platform {
    /// The RISC-V virtual platform.
    Spike,
    /// The AArch64 virtual platform.
    QemuArmVirt,
}

/// Where the kernel source tree comes from.
///
/// A local source is never fetched, removed, or otherwise mutated. A remote
/// source resolves to a fixed staging path owned by this tool.
#[derive(Debug, Clone, PartialEq, Eq)]
pub enum SourceSpec {
    /// A caller-supplied local tree, used as-is.
    Local { path: String },
    /// The project's remote repository, cloned at the given branch.
    Remote { branch: String },
}

/// Raw flag values as the command line hands them over, before validation.
#[derive(Debug, Clone, PartialEq, Eq)]
pub struct Options {
    /// The requested platform name.
    pub platform: String,
    /// Enable the MCS scheduling mode.
    pub mcs: bool,
    /// Disable the fastpath.
    pub nofastpath: bool,
    /// Build the kernel in binary mode rather than lib mode.
    pub bin: bool,
    /// The install prefix directory.
    pub sel4_prefix: String,
    /// An optional local kernel source tree.
    pub local: Option<String>,
    /// The remote branch to clone.
    pub branch: String,
    /// Remove and re-fetch staged sources even when present.
    pub force: bool,
    /// Build an upstream baseline kernel pinned to this revision instead of
    /// the project's own kernel.
    pub sel4_baseline: Option<String>,
    /// The directory under which staged source trees live.
    pub staging_root: String,
}

/// The validated, immutable configuration the whole pipeline runs from.
#[derive(Debug, Clone, PartialEq, Eq)]
pub struct BuildConfig {
    pub platform: Platform,
    pub mcs: bool,
    pub fastpath_enabled: bool,
    pub binary_mode: bool,
    pub install_prefix: String,
    pub source: SourceSpec,
    pub force_refetch: bool,
    pub baseline_revision: Option<String>,
    pub staging_root: String,
}

/// The staging path of the project kernel source, under the staging root.
pub open spec fn spec_kernel_staging(cfg: &BuildConfig) -> Seq<char> {
    cfg.staging_root@ + "/rel4_kernel"@
}

/// The staging path of the C kernel implementation, under the staging root.
pub open spec fn spec_sel4_staging(cfg: &BuildConfig) -> Seq<char> {
    cfg.staging_root@ + "/seL4_kernel"@
}

impl BuildConfig {
    /// The staging path of the project kernel source.
    pub fn kernel_staging(&self) -> (r: String)
        ensures
            r@ == spec_kernel_staging(self),
    {
        concat_str(self.staging_root.as_str(), "/rel4_kernel")
    }

    /// The staging path of the C kernel implementation.
    pub fn sel4_staging(&self) -> (r: String)
        ensures
            r@ == spec_sel4_staging(self),
    {
        concat_str(self.staging_root.as_str(), "/seL4_kernel")
    }
}

/// What `resolve` promises of a successful resolution: every configuration
/// field is a direct image of the raw options.
pub open spec fn resolved_from(cfg: BuildConfig, opts: &Options) -> bool {
    &&& (cfg.platform == Platform::Spike <==> opts.platform@ == "spike"@)
    &&& (cfg.platform == Platform::QemuArmVirt <==> opts.platform@ == "qemu-arm-virt"@)
    &&& cfg.mcs == opts.mcs
    &&& cfg.fastpath_enabled == !opts.nofastpath
    &&& cfg.binary_mode == opts.bin
    &&& cfg.install_prefix@ == opts.sel4_prefix@
    &&& (match opts.local {
        Some(ref p) => cfg.source matches SourceSpec::Local { path } && path@ == p@,
        None => cfg.source matches SourceSpec::Remote { branch } && branch@ == opts.branch@,
    })
    &&& cfg.force_refetch == opts.force
    &&& cfg.baseline_revision.deep_view() == opts.sel4_baseline.deep_view()
    &&& cfg.staging_root@ == opts.staging_root@
}

/// Whether the raw platform name is a supported one.
pub open spec fn platform_supported(name: Seq<char>) -> bool {
    name == "spike"@ || name == "qemu-arm-virt"@
}

/// Validates and normalizes raw flag values into a `BuildConfig`.
///
/// An unsupported platform name is rejected here, never deferred to a child
/// process; everything else maps over unchanged. No side effects.
pub fn resolve(opts: &Options) -> (r: Result<BuildConfig, InstallError>)
    ensures
        platform_supported(opts.platform@) <==> r is Ok,
        r matches Ok(cfg) ==> resolved_from(cfg, opts),
        !platform_supported(opts.platform@) ==> r == Err::<BuildConfig, InstallError>(
            InstallError::ConfigValidation,
        ),
{
    let platform = if opts.platform == String::from_str("spike") {
        Platform::Spike
    } else if opts.platform == String::from_str("qemu-arm-virt") {
        Platform::QemuArmVirt
    } else {
        return Err(InstallError::ConfigValidation);
    };
    let source = match &opts.local {
        Some(p) => SourceSpec::Local { path: p.clone() },
        None => SourceSpec::Remote { branch: opts.branch.clone() },
    };
    let baseline_revision = match &opts.sel4_baseline {
        Some(rev) => Some(rev.clone()),
        None => None,
    };
    proof {
        reveal_strlit("spike");
        reveal_strlit("qemu-arm-virt");
        assert("spike"@.len() == 5);
        assert("qemu-arm-virt"@.len() == 13);
    }
    Ok(
        BuildConfig {
            platform,
            mcs: opts.mcs,
            fastpath_enabled: !opts.nofastpath,
            binary_mode: opts.bin,
            install_prefix: opts.sel4_prefix.clone(),
            source,
            force_refetch: opts.force,
            baseline_revision,
            staging_root: opts.staging_root.clone(),
        },
    )
}

} // verus!
