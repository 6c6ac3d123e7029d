//! Build command composition.
//!
//! A pure function from the configuration to each external tool invocation.
//! Flag names and value formats are verbatim strings: they are opaque
//! identifiers owned by the external tools' own CLI contracts, and argument
//! order is significant only to those tools.

use crate::config::{BuildConfig, Platform};
use crate::stage::{concat_str, push_str, push_string, push_env, BuildStage, SpecStage};
use vstd::prelude::*;

verus! {

// ---------------------------------------------------------------------------
// Small spec-level pieces shared by several stages.
// ---------------------------------------------------------------------------
/// The CMake install-prefix flag for a given prefix.
pub open spec fn install_prefix_flag(prefix: Seq<char>) -> Seq<char> {
    "-DCMAKE_INSTALL_PREFIX="@ + prefix
}

/// The flag that tells the C kernel build whether the project kernel is
/// linked in binary form.
pub open spec fn rel4_kernel_flag(binary_mode: bool) -> Seq<char> {
    if binary_mode {
        "-DREL4_KERNEL=TRUE"@
    } else {
        "-DREL4_KERNEL=FALSE"@
    }
}

/// The build tree nested under a source tree.
pub open spec fn build_subdir(source_dir: Seq<char>) -> Seq<char> {
    source_dir + "/build"@
}

/// The cross-compiler prefix required by a platform.
pub open spec fn cross_compiler_flag(p: Platform) -> Seq<char> {
    match p {
        Platform::Spike => "-DCROSS_COMPILER_PREFIX=riscv64-unknown-linux-gnu-"@,
        Platform::QemuArmVirt => "-DCROSS_COMPILER_PREFIX=aarch64-linux-gnu-"@,
    }
}

/// The platform-specific kernel-settings file of the project's own C kernel
/// build.
pub open spec fn settings_file(p: Platform) -> Seq<char> {
    match p {
        Platform::Spike => "./kernel-settings-riscv64.cmake"@,
        Platform::QemuArmVirt => "./kernel-settings-aarch64.cmake"@,
    }
}

/// The platform name as the build tools spell it.
pub open spec fn platform_name(p: Platform) -> Seq<char> {
    match p {
        Platform::Spike => "spike"@,
        Platform::QemuArmVirt => "qemu-arm-virt"@,
    }
}

/// The target triple of a binary-mode kernel image.
pub open spec fn binary_target_triple(p: Platform) -> Seq<char> {
    match p {
        Platform::Spike => "riscv64imac-unknown-none-elf"@,
        Platform::QemuArmVirt => "aarch64-unknown-none-softfloat"@,
    }
}

/// The target triple the kernel loader is built for.
pub open spec fn loader_target_triple(p: Platform) -> Seq<char> {
    match p {
        Platform::Spike => "riscv64imac-unknown-none-elf"@,
        Platform::QemuArmVirt => "aarch64-unknown-none"@,
    }
}

/// The platform that is not `p`.
pub open spec fn other_platform(p: Platform) -> Platform {
    match p {
        Platform::Spike => Platform::QemuArmVirt,
        Platform::QemuArmVirt => Platform::Spike,
    }
}

// ---------------------------------------------------------------------------
// Source-fetch commands.
// ---------------------------------------------------------------------------
/// The shallow clone of the project kernel repository at a chosen branch.
pub open spec fn spec_rel4_clone(dest: Seq<char>, branch: Seq<char>) -> SpecStage {
    SpecStage {
        tool: "git"@,
        args: seq![
            "clone"@,
            "https://github.com/reL4team2/rel4-integral.git"@,
            dest,
            "--config"@,
            "advice.detachedHead=false"@,
            "--depth"@,
            "1"@,
            "--branch"@,
            branch,
        ],
        working_dir: None,
        env_overrides: Seq::empty(),
        env_removals: Seq::empty(),
    }
}

/// Composes the clone command for the project kernel source.
pub fn compose_rel4_clone(dest: &str, branch: &str) -> (r: BuildStage)
    ensures
        r@ == spec_rel4_clone(dest@, branch@),
{
    let mut args: Vec<String> = Vec::new();
    push_str(&mut args, "clone");
    push_str(&mut args, "https://github.com/reL4team2/rel4-integral.git");
    push_str(&mut args, dest);
    push_str(&mut args, "--config");
    push_str(&mut args, "advice.detachedHead=false");
    push_str(&mut args, "--depth");
    push_str(&mut args, "1");
    push_str(&mut args, "--branch");
    push_str(&mut args, branch);
    let r = BuildStage {
        tool: String::from_str("git"),
        args,
        working_dir: None,
        env_overrides: Vec::new(),
        env_removals: Vec::new(),
    };
    proof {
        assert(r@ =~~= spec_rel4_clone(dest@, branch@));
    }
    r
}

/// The full clone of the C kernel implementation repository.
pub open spec fn spec_sel4_impl_clone(dest: Seq<char>) -> SpecStage {
    SpecStage {
        tool: "git"@,
        args: seq![
            "clone"@,
            "https://github.com/reL4team2/seL4_c_impl.git"@,
            dest,
            "--config"@,
            "advice.detachedHead=false"@,
        ],
        working_dir: None,
        env_overrides: Seq::empty(),
        env_removals: Seq::empty(),
    }
}

/// Composes the clone command for the C kernel implementation.
pub fn compose_sel4_impl_clone(dest: &str) -> (r: BuildStage)
    ensures
        r@ == spec_sel4_impl_clone(dest@),
{
    let mut args: Vec<String> = Vec::new();
    push_str(&mut args, "clone");
    push_str(&mut args, "https://github.com/reL4team2/seL4_c_impl.git");
    push_str(&mut args, dest);
    push_str(&mut args, "--config");
    push_str(&mut args, "advice.detachedHead=false");
    let r = BuildStage {
        tool: String::from_str("git"),
        args,
        working_dir: None,
        env_overrides: Vec::new(),
        env_removals: Vec::new(),
    };
    proof {
        assert(r@ =~~= spec_sel4_impl_clone(dest@));
    }
    r
}

/// The clone of the upstream baseline kernel repository.
pub open spec fn spec_baseline_clone(dest: Seq<char>) -> SpecStage {
    SpecStage {
        tool: "git"@,
        args: seq!["clone"@, "https://github.com/seL4/seL4.git"@, dest],
        working_dir: None,
        env_overrides: Seq::empty(),
        env_removals: Seq::empty(),
    }
}

/// Composes the clone command for the upstream baseline kernel.
pub fn compose_baseline_clone(dest: &str) -> (r: BuildStage)
    ensures
        r@ == spec_baseline_clone(dest@),
{
    let mut args: Vec<String> = Vec::new();
    push_str(&mut args, "clone");
    push_str(&mut args, "https://github.com/seL4/seL4.git");
    push_str(&mut args, dest);
    let r = BuildStage {
        tool: String::from_str("git"),
        args,
        working_dir: None,
        env_overrides: Vec::new(),
        env_removals: Vec::new(),
    };
    proof {
        assert(r@ =~~= spec_baseline_clone(dest@));
    }
    r
}

/// The checkout of a pinned baseline revision inside a fresh clone.
pub open spec fn spec_checkout(revision: Seq<char>, dir: Seq<char>) -> SpecStage {
    SpecStage {
        tool: "git"@,
        args: seq!["checkout"@, revision],
        working_dir: Some(dir),
        env_overrides: Seq::empty(),
        env_removals: Seq::empty(),
    }
}

/// Composes the checkout of a pinned baseline revision.
pub fn compose_checkout(revision: &str, dir: &str) -> (r: BuildStage)
    ensures
        r@ == spec_checkout(revision@, dir@),
{
    let mut args: Vec<String> = Vec::new();
    push_str(&mut args, "checkout");
    push_str(&mut args, revision);
    let r = BuildStage {
        tool: String::from_str("git"),
        args,
        working_dir: Some(String::from_str(dir)),
        env_overrides: Vec::new(),
        env_removals: Vec::new(),
    };
    proof {
        assert(r@ =~~= spec_checkout(revision@, dir@));
    }
    r
}

/// The one-time dependency-pin fixup run inside a freshly cloned project
/// kernel tree.
pub open spec fn spec_fixup(dir: Seq<char>) -> SpecStage {
    SpecStage {
        tool: "cargo"@,
        args: seq!["update"@, "home@0.5.11"@, "--precise"@, "0.5.5"@],
        working_dir: Some(dir),
        env_overrides: Seq::empty(),
        env_removals: Seq::empty(),
    }
}

/// Composes the post-clone dependency-pin fixup.
pub fn compose_fixup(dir: &str) -> (r: BuildStage)
    ensures
        r@ == spec_fixup(dir@),
{
    let mut args: Vec<String> = Vec::new();
    push_str(&mut args, "update");
    push_str(&mut args, "home@0.5.11");
    push_str(&mut args, "--precise");
    push_str(&mut args, "0.5.5");
    let r = BuildStage {
        tool: String::from_str("cargo"),
        args,
        working_dir: Some(String::from_str(dir)),
        env_overrides: Vec::new(),
        env_removals: Vec::new(),
    };
    proof {
        assert(r@ =~~= spec_fixup(dir@));
    }
    r
}

// ---------------------------------------------------------------------------
// The project kernel build.
// ---------------------------------------------------------------------------
/// The platform-selection arguments of the project kernel build.
pub open spec fn xtask_platform_args(p: Platform) -> Seq<Seq<char>> {
    match p {
        Platform::Spike => seq!["--platform"@, "spike"@],
        Platform::QemuArmVirt => seq![
            "--platform"@,
            "qemu-arm-virt"@,
            "-s"@,
            "on"@,
            "--arm-pcnt"@,
            "--arm-ptmr"@,
        ],
    }
}

/// The full argument list of the project kernel build: a fixed pinned
/// toolchain invocation, then the platform selection, then the optional mode
/// flags in a fixed order.
pub open spec fn xtask_build_args(cfg: &BuildConfig) -> Seq<Seq<char>> {
    seq!["run"@, "nightly-2024-02-01"@, "cargo"@, "xtask"@, "build"@, "--rust-only"@]
        + xtask_platform_args(cfg.platform) + (if cfg.mcs {
        seq!["--mcs"@, "on"@]
    } else {
        Seq::empty()
    }) + (if !cfg.fastpath_enabled {
        seq!["--nofastpath"@]
    } else {
        Seq::empty()
    }) + (if cfg.binary_mode {
        seq!["--bin"@]
    } else {
        Seq::empty()
    })
}

/// The project kernel build stage, run inside the kernel source tree.
pub open spec fn spec_xtask_build(cfg: &BuildConfig, kernel_dir: Seq<char>) -> SpecStage {
    SpecStage {
        tool: "rustup"@,
        args: xtask_build_args(cfg),
        working_dir: Some(kernel_dir),
        env_overrides: Seq::empty(),
        env_removals: Seq::empty(),
    }
}

/// Composes the project kernel build command.
pub fn compose_xtask_build(cfg: &BuildConfig, kernel_dir: &str) -> (r: BuildStage)
    ensures
        r@ == spec_xtask_build(cfg, kernel_dir@),
{
    let mut args: Vec<String> = Vec::new();
    push_str(&mut args, "run");
    push_str(&mut args, "nightly-2024-02-01");
    push_str(&mut args, "cargo");
    push_str(&mut args, "xtask");
    push_str(&mut args, "build");
    push_str(&mut args, "--rust-only");
    match cfg.platform {
        Platform::Spike => {
            push_str(&mut args, "--platform");
            push_str(&mut args, "spike");
        },
        Platform::QemuArmVirt => {
            push_str(&mut args, "--platform");
            push_str(&mut args, "qemu-arm-virt");
            push_str(&mut args, "-s");
            push_str(&mut args, "on");
            push_str(&mut args, "--arm-pcnt");
            push_str(&mut args, "--arm-ptmr");
        },
    }
    if cfg.mcs {
        push_str(&mut args, "--mcs");
        push_str(&mut args, "on");
    }
    if !cfg.fastpath_enabled {
        push_str(&mut args, "--nofastpath");
    }
    if cfg.binary_mode {
        push_str(&mut args, "--bin");
    }
    let r = BuildStage {
        tool: String::from_str("rustup"),
        args,
        working_dir: Some(String::from_str(kernel_dir)),
        env_overrides: Vec::new(),
        env_removals: Vec::new(),
    };
    proof {
        assert(r@.args =~= xtask_build_args(cfg));
        assert(r@ =~~= spec_xtask_build(cfg, kernel_dir@));
    }
    r
}

// ---------------------------------------------------------------------------
// The C kernel configure / build / install.
// ---------------------------------------------------------------------------
/// The configure arguments of the project's own C kernel build, driven by
/// the platform-specific kernel-settings file.
pub open spec fn integral_configure_args(cfg: &BuildConfig, source_dir: Seq<char>) -> Seq<
    Seq<char>,
> {
    match cfg.platform {
        Platform::Spike => seq![
            cross_compiler_flag(Platform::Spike),
            install_prefix_flag(cfg.install_prefix@),
            rel4_kernel_flag(cfg.binary_mode),
            "-C"@,
            settings_file(Platform::Spike),
            "-G"@,
            "Ninja"@,
            "-S"@,
            "."@,
            "-B"@,
            build_subdir(source_dir),
        ],
        Platform::QemuArmVirt => seq![
            cross_compiler_flag(Platform::QemuArmVirt),
            "-DKernelAllowSMCCalls=ON"@,
            install_prefix_flag(cfg.install_prefix@),
            rel4_kernel_flag(cfg.binary_mode),
            "-DKernelArmExportPCNTUser=ON"@,
            "-DKernelArmExportPTMRUser=ON"@,
            "-C"@,
            settings_file(Platform::QemuArmVirt),
            "-G"@,
            "Ninja"@,
            "-S"@,
            "."@,
            "-B"@,
            build_subdir(source_dir),
        ],
    }
}

/// The configure stage of the project's own C kernel build.
pub open spec fn spec_integral_configure(cfg: &BuildConfig, source_dir: Seq<char>) -> SpecStage {
    SpecStage {
        tool: "cmake"@,
        args: integral_configure_args(cfg, source_dir),
        working_dir: Some(source_dir),
        env_overrides: Seq::empty(),
        env_removals: Seq::empty(),
    }
}

/// Composes the configure command of the project's own C kernel build.
pub fn compose_integral_configure(cfg: &BuildConfig, source_dir: &str) -> (r: BuildStage)
    ensures
        r@ == spec_integral_configure(cfg, source_dir@),
{
    let mut args: Vec<String> = Vec::new();
    let prefix_flag = concat_str("-DCMAKE_INSTALL_PREFIX=", cfg.install_prefix.as_str());
    let build_dir = concat_str(source_dir, "/build");
    match cfg.platform {
        Platform::Spike => {
            push_str(&mut args, "-DCROSS_COMPILER_PREFIX=riscv64-unknown-linux-gnu-");
            push_string(&mut args, prefix_flag);
            if cfg.binary_mode {
                push_str(&mut args, "-DREL4_KERNEL=TRUE");
            } else {
                push_str(&mut args, "-DREL4_KERNEL=FALSE");
            }
            push_str(&mut args, "-C");
            push_str(&mut args, "./kernel-settings-riscv64.cmake");
        },
        Platform::QemuArmVirt => {
            push_str(&mut args, "-DCROSS_COMPILER_PREFIX=aarch64-linux-gnu-");
            push_str(&mut args, "-DKernelAllowSMCCalls=ON");
            push_string(&mut args, prefix_flag);
            if cfg.binary_mode {
                push_str(&mut args, "-DREL4_KERNEL=TRUE");
            } else {
                push_str(&mut args, "-DREL4_KERNEL=FALSE");
            }
            push_str(&mut args, "-DKernelArmExportPCNTUser=ON");
            push_str(&mut args, "-DKernelArmExportPTMRUser=ON");
            push_str(&mut args, "-C");
            push_str(&mut args, "./kernel-settings-aarch64.cmake");
        },
    }
    push_str(&mut args, "-G");
    push_str(&mut args, "Ninja");
    push_str(&mut args, "-S");
    push_str(&mut args, ".");
    push_str(&mut args, "-B");
    push_string(&mut args, build_dir);
    let r = BuildStage {
        tool: String::from_str("cmake"),
        args,
        working_dir: Some(String::from_str(source_dir)),
        env_overrides: Vec::new(),
        env_removals: Vec::new(),
    };
    proof {
        assert(r@.args =~= integral_configure_args(cfg, source_dir@));
        assert(r@ =~~= spec_integral_configure(cfg, source_dir@));
    }
    r
}

/// The configure arguments of the upstream baseline kernel build, using the
/// upstream build configuration flags rather than a settings file.
pub open spec fn baseline_configure_args(cfg: &BuildConfig, source_dir: Seq<char>) -> Seq<
    Seq<char>,
> {
    match cfg.platform {
        Platform::Spike => seq![
            cross_compiler_flag(Platform::Spike),
            install_prefix_flag(cfg.install_prefix@),
            "-DKernelArch=riscv"@,
            "-DKernelPlatform=spike"@,
            "-DKernelSel4Arch=riscv64"@,
            "-DKernelVerificationBuild=OFF"@,
            "-G"@,
            "Ninja"@,
            "-S"@,
            "."@,
            "-B"@,
            build_subdir(source_dir),
        ],
        Platform::QemuArmVirt => seq![
            cross_compiler_flag(Platform::QemuArmVirt),
            "-DKernelAllowSMCCalls=ON"@,
            install_prefix_flag(cfg.install_prefix@),
            "-DKernelArmExportPCNTUser=ON"@,
            "-DKernelArmExportPTMRUser=ON"@,
            "-DARM_CPU=cortex-a57"@,
            "-DKernelArch=arm"@,
            "-DKernelArmHypervisorSupport=OFF"@,
            "-DKernelPlatform=qemu-arm-virt"@,
            "-DKernelSel4Arch=aarch64"@,
            "-DKernelVerificationBuild=OFF"@,
            "-G"@,
            "Ninja"@,
            "-S"@,
            "."@,
            "-B"@,
            build_subdir(source_dir),
        ],
    }
}

/// The configure stage of the upstream baseline kernel build.
pub open spec fn spec_baseline_configure(cfg: &BuildConfig, source_dir: Seq<char>) -> SpecStage {
    SpecStage {
        tool: "cmake"@,
        args: baseline_configure_args(cfg, source_dir),
        working_dir: Some(source_dir),
        env_overrides: Seq::empty(),
        env_removals: Seq::empty(),
    }
}

/// Composes the configure command of the upstream baseline kernel build.
pub fn compose_baseline_configure(cfg: &BuildConfig, source_dir: &str) -> (r: BuildStage)
    ensures
        r@ == spec_baseline_configure(cfg, source_dir@),
{
    let mut args: Vec<String> = Vec::new();
    let prefix_flag = concat_str("-DCMAKE_INSTALL_PREFIX=", cfg.install_prefix.as_str());
    let build_dir = concat_str(source_dir, "/build");
    match cfg.platform {
        Platform::Spike => {
            push_str(&mut args, "-DCROSS_COMPILER_PREFIX=riscv64-unknown-linux-gnu-");
            push_string(&mut args, prefix_flag);
            push_str(&mut args, "-DKernelArch=riscv");
            push_str(&mut args, "-DKernelPlatform=spike");
            push_str(&mut args, "-DKernelSel4Arch=riscv64");
            push_str(&mut args, "-DKernelVerificationBuild=OFF");
        },
        Platform::QemuArmVirt => {
            push_str(&mut args, "-DCROSS_COMPILER_PREFIX=aarch64-linux-gnu-");
            push_str(&mut args, "-DKernelAllowSMCCalls=ON");
            push_string(&mut args, prefix_flag);
            push_str(&mut args, "-DKernelArmExportPCNTUser=ON");
            push_str(&mut args, "-DKernelArmExportPTMRUser=ON");
            push_str(&mut args, "-DARM_CPU=cortex-a57");
            push_str(&mut args, "-DKernelArch=arm");
            push_str(&mut args, "-DKernelArmHypervisorSupport=OFF");
            push_str(&mut args, "-DKernelPlatform=qemu-arm-virt");
            push_str(&mut args, "-DKernelSel4Arch=aarch64");
            push_str(&mut args, "-DKernelVerificationBuild=OFF");
        },
    }
    push_str(&mut args, "-G");
    push_str(&mut args, "Ninja");
    push_str(&mut args, "-S");
    push_str(&mut args, ".");
    push_str(&mut args, "-B");
    push_string(&mut args, build_dir);
    let r = BuildStage {
        tool: String::from_str("cmake"),
        args,
        working_dir: Some(String::from_str(source_dir)),
        env_overrides: Vec::new(),
        env_removals: Vec::new(),
    };
    proof {
        assert(r@.args =~= baseline_configure_args(cfg, source_dir@));
        assert(r@ =~~= spec_baseline_configure(cfg, source_dir@));
    }
    r
}

/// A build-runner pass over the configured build tree.
pub open spec fn spec_ninja(target: Seq<char>, source_dir: Seq<char>) -> SpecStage {
    SpecStage {
        tool: "ninja"@,
        args: seq!["-C"@, "build"@, target],
        working_dir: Some(source_dir),
        env_overrides: Seq::empty(),
        env_removals: Seq::empty(),
    }
}

/// Composes the build-runner pass that compiles everything.
pub fn compose_ninja_all(source_dir: &str) -> (r: BuildStage)
    ensures
        r@ == spec_ninja("all"@, source_dir@),
{
    compose_ninja(source_dir, "all")
}

/// Composes the build-runner pass that installs into the prefix.
pub fn compose_ninja_install(source_dir: &str) -> (r: BuildStage)
    ensures
        r@ == spec_ninja("install"@, source_dir@),
{
    compose_ninja(source_dir, "install")
}

fn compose_ninja(source_dir: &str, target: &str) -> (r: BuildStage)
    ensures
        r@ == spec_ninja(target@, source_dir@),
{
    let mut args: Vec<String> = Vec::new();
    push_str(&mut args, "-C");
    push_str(&mut args, "build");
    push_str(&mut args, target);
    let r = BuildStage {
        tool: String::from_str("ninja"),
        args,
        working_dir: Some(String::from_str(source_dir)),
        env_overrides: Vec::new(),
        env_removals: Vec::new(),
    };
    proof {
        assert(r@ =~~= spec_ninja(target@, source_dir@));
    }
    r
}

// ---------------------------------------------------------------------------
// The kernel loader, installed through the pinned toolchain manager.
// ---------------------------------------------------------------------------
/// The toolchain-selection variables removed before every pinned-toolchain
/// install, so they cannot conflict with the toolchain the command selects.
pub open spec fn loader_env_removals() -> Seq<Seq<char>> {
    seq!["RUSTUP_TOOLCHAIN"@, "CARGO"@]
}

/// The remote install of the loader's payload-attaching helper.
pub open spec fn spec_loader_payload_install(cfg: &BuildConfig) -> SpecStage {
    SpecStage {
        tool: "rustup"@,
        args: seq![
            "run"@,
            "nightly-2024-08-01"@,
            "cargo"@,
            "install"@,
            "--git"@,
            "https://github.com/reL4team2/rust-sel4.git"@,
            "--rev"@,
            "642b58d807c5e5fc22f0c15d1467d6bec328faa9"@,
            "--root"@,
            cfg.install_prefix@,
            "sel4-kernel-loader-add-payload"@,
        ] + (if cfg.force_refetch {
            seq!["--force"@]
        } else {
            Seq::<Seq<char>>::empty()
        }),
        working_dir: None,
        env_overrides: Seq::empty(),
        env_removals: loader_env_removals(),
    }
}

/// Composes the remote install of the payload-attaching helper.
pub fn compose_loader_payload_install(cfg: &BuildConfig) -> (r: BuildStage)
    ensures
        r@ == spec_loader_payload_install(cfg),
{
    let mut args: Vec<String> = Vec::new();
    push_str(&mut args, "run");
    push_str(&mut args, "nightly-2024-08-01");
    push_str(&mut args, "cargo");
    push_str(&mut args, "install");
    push_str(&mut args, "--git");
    push_str(&mut args, "https://github.com/reL4team2/rust-sel4.git");
    push_str(&mut args, "--rev");
    push_str(&mut args, "642b58d807c5e5fc22f0c15d1467d6bec328faa9");
    push_str(&mut args, "--root");
    push_string(&mut args, cfg.install_prefix.clone());
    push_str(&mut args, "sel4-kernel-loader-add-payload");
    if cfg.force_refetch {
        push_str(&mut args, "--force");
    }
    let mut env_removals: Vec<String> = Vec::new();
    push_str(&mut env_removals, "RUSTUP_TOOLCHAIN");
    push_str(&mut env_removals, "CARGO");
    let r = BuildStage {
        tool: String::from_str("rustup"),
        args,
        working_dir: None,
        env_overrides: Vec::new(),
        env_removals,
    };
    proof {
        assert(r@.args =~= spec_loader_payload_install(cfg).args);
        assert(r@.env_removals =~= loader_env_removals());
        assert(r@ =~~= spec_loader_payload_install(cfg));
    }
    r
}

/// The remote install of the kernel loader itself, cross-built for the
/// platform's loader target with a bare-metal standard library.
pub open spec fn spec_loader_install(cfg: &BuildConfig) -> SpecStage {
    SpecStage {
        tool: "rustup"@,
        args: seq![
            "run"@,
            "nightly-2024-08-01"@,
            "cargo"@,
            "install"@,
            "-Z"@,
            "build-std=core,compiler_builtins"@,
            "-Z"@,
            "build-std-features=compiler-builtins-mem"@,
            "--target"@,
            loader_target_triple(cfg.platform),
            "--git"@,
            "https://github.com/reL4team2/rust-sel4.git"@,
            "--rev"@,
            "642b58d807c5e5fc22f0c15d1467d6bec328faa9"@,
            "--root"@,
            cfg.install_prefix@,
            "sel4-kernel-loader"@,
        ] + (if cfg.force_refetch {
            seq!["--force"@]
        } else {
            Seq::<Seq<char>>::empty()
        }),
        working_dir: None,
        env_overrides: seq![
            ("SEL4_PREFIX"@, cfg.install_prefix@),
            ("CC_aarch64_unknown_none"@, "aarch64-linux-gnu-gcc"@),
        ],
        env_removals: loader_env_removals(),
    }
}

/// Composes the remote install of the kernel loader.
pub fn compose_loader_install(cfg: &BuildConfig) -> (r: BuildStage)
    ensures
        r@ == spec_loader_install(cfg),
{
    let mut args: Vec<String> = Vec::new();
    push_str(&mut args, "run");
    push_str(&mut args, "nightly-2024-08-01");
    push_str(&mut args, "cargo");
    push_str(&mut args, "install");
    push_str(&mut args, "-Z");
    push_str(&mut args, "build-std=core,compiler_builtins");
    push_str(&mut args, "-Z");
    push_str(&mut args, "build-std-features=compiler-builtins-mem");
    push_str(&mut args, "--target");
    match cfg.platform {
        Platform::Spike => push_str(&mut args, "riscv64imac-unknown-none-elf"),
        Platform::QemuArmVirt => push_str(&mut args, "aarch64-unknown-none"),
    }
    push_str(&mut args, "--git");
    push_str(&mut args, "https://github.com/reL4team2/rust-sel4.git");
    push_str(&mut args, "--rev");
    push_str(&mut args, "642b58d807c5e5fc22f0c15d1467d6bec328faa9");
    push_str(&mut args, "--root");
    push_string(&mut args, cfg.install_prefix.clone());
    push_str(&mut args, "sel4-kernel-loader");
    if cfg.force_refetch {
        push_str(&mut args, "--force");
    }
    let mut env_overrides: Vec<(String, String)> = Vec::new();
    push_env(&mut env_overrides, "SEL4_PREFIX", cfg.install_prefix.clone());
    push_env(&mut env_overrides, "CC_aarch64_unknown_none", String::from_str("aarch64-linux-gnu-gcc"));
    let mut env_removals: Vec<String> = Vec::new();
    push_str(&mut env_removals, "RUSTUP_TOOLCHAIN");
    push_str(&mut env_removals, "CARGO");
    let r = BuildStage {
        tool: String::from_str("rustup"),
        args,
        working_dir: None,
        env_overrides,
        env_removals,
    };
    proof {
        assert(r@.args =~= spec_loader_install(cfg).args);
        assert(r@.env_overrides =~= spec_loader_install(cfg).env_overrides);
        assert(r@.env_removals =~= loader_env_removals());
        assert(r@ =~~= spec_loader_install(cfg));
    }
    r
}

// ---------------------------------------------------------------------------
// Platform-flag exclusivity laws.
// ---------------------------------------------------------------------------
/// The platform-selection flag of the upstream baseline configure stage.
pub open spec fn kernel_platform_flag(p: Platform) -> Seq<char> {
    match p {
        Platform::Spike => "-DKernelPlatform=spike"@,
        Platform::QemuArmVirt => "-DKernelPlatform=qemu-arm-virt"@,
    }
}

/// Whether `flag` occurs in `args`.
pub open spec fn appears(args: Seq<Seq<char>>, flag: Seq<char>) -> bool {
    exists|i: int| 0 <= i < args.len() && args[i] == flag
}

/// Whether `flag` occurs in `args` at most once.
pub open spec fn appears_at_most_once(args: Seq<Seq<char>>, flag: Seq<char>) -> bool {
    forall|i: int, j: int|
        0 <= i < args.len() && 0 <= j < args.len() && args[i] == flag && args[j] == flag ==> i
            == j
}

/// Whether `flag` occurs in `args` exactly once.
pub open spec fn appears_exactly_once(args: Seq<Seq<char>>, flag: Seq<char>) -> bool {
    appears(args, flag) && appears_at_most_once(args, flag)
}

/// Facts about the verbatim command-line strings, exported once so the
/// exclusivity laws below can tell them apart.
proof fn literal_facts()
    ensures
        "--arm-pcnt"@.len() == 10,
        "--arm-ptmr"@.len() == 10,
        "--bin"@.len() == 5,
        "--mcs"@.len() == 5,
        "--nofastpath"@.len() == 12,
        "--platform"@.len() == 10,
        "--rust-only"@.len() == 11,
        "-B"@.len() == 2,
        "-C"@.len() == 2,
        "-DARM_CPU=cortex-a57"@.len() == 20,
        "-DCMAKE_INSTALL_PREFIX="@.len() == 23,
        "-DCROSS_COMPILER_PREFIX=aarch64-linux-gnu-"@.len() == 42,
        "-DCROSS_COMPILER_PREFIX=riscv64-unknown-linux-gnu-"@.len() == 50,
        "-DKernelAllowSMCCalls=ON"@.len() == 24,
        "-DKernelArch=arm"@.len() == 16,
        "-DKernelArch=riscv"@.len() == 18,
        "-DKernelArmExportPCNTUser=ON"@.len() == 28,
        "-DKernelArmExportPTMRUser=ON"@.len() == 28,
        "-DKernelArmHypervisorSupport=OFF"@.len() == 32,
        "-DKernelPlatform=qemu-arm-virt"@.len() == 30,
        "-DKernelPlatform=spike"@.len() == 22,
        "-DKernelSel4Arch=aarch64"@.len() == 24,
        "-DKernelSel4Arch=riscv64"@.len() == 24,
        "-DKernelVerificationBuild=OFF"@.len() == 29,
        "-DREL4_KERNEL=FALSE"@.len() == 19,
        "-DREL4_KERNEL=TRUE"@.len() == 18,
        "-G"@.len() == 2,
        "-S"@.len() == 2,
        "-s"@.len() == 2,
        "."@.len() == 1,
        "./kernel-settings-aarch64.cmake"@.len() == 31,
        "./kernel-settings-riscv64.cmake"@.len() == 31,
        "/build"@.len() == 6,
        "Ninja"@.len() == 5,
        "build"@.len() == 5,
        "cargo"@.len() == 5,
        "nightly-2024-02-01"@.len() == 18,
        "on"@.len() == 2,
        "qemu-arm-virt"@.len() == 13,
        "run"@.len() == 3,
        "spike"@.len() == 5,
        "xtask"@.len() == 5,
        "-DCMAKE_INSTALL_PREFIX="@[0] == '-',
        "-DCMAKE_INSTALL_PREFIX="@[3] == 'M',
        "-DCROSS_COMPILER_PREFIX=riscv64-unknown-linux-gnu-"@[3] == 'R',
        "-DCROSS_COMPILER_PREFIX=riscv64-unknown-linux-gnu-"@[49] == '-',
        "-DCROSS_COMPILER_PREFIX=aarch64-linux-gnu-"@[3] == 'R',
        "-DCROSS_COMPILER_PREFIX=aarch64-linux-gnu-"@[41] == '-',
        "./kernel-settings-riscv64.cmake"@[0] == '.',
        "./kernel-settings-riscv64.cmake"@[18] == 'r',
        "./kernel-settings-riscv64.cmake"@[30] == 'e',
        "./kernel-settings-aarch64.cmake"@[0] == '.',
        "./kernel-settings-aarch64.cmake"@[18] == 'a',
        "./kernel-settings-aarch64.cmake"@[30] == 'e',
        "-DKernelPlatform=spike"@[3] == 'e',
        "-DKernelPlatform=spike"@[21] == 'e',
        "-DKernelPlatform=qemu-arm-virt"@[3] == 'e',
        "-DKernelPlatform=qemu-arm-virt"@[29] == 't',
        "spike"@[0] == 's',
        "spike"@[4] == 'e',
        "qemu-arm-virt"@[0] == 'q',
        "qemu-arm-virt"@[12] == 't',
        "/build"@[5] == 'd',
        "cargo"@[0] == 'c',
        "xtask"@[0] == 'x',
        "build"@[0] == 'b',
        "--mcs"@[0] == '-',
        "--bin"@[0] == '-',
        "--arm-pcnt"@[6] == 'p',
        "--arm-ptmr"@[6] == 'p',
        "--platform"@[6] == 'f',
{
    reveal_strlit("--arm-pcnt");
    reveal_strlit("--arm-ptmr");
    reveal_strlit("--bin");
    reveal_strlit("--mcs");
    reveal_strlit("--nofastpath");
    reveal_strlit("--platform");
    reveal_strlit("--rust-only");
    reveal_strlit("-B");
    reveal_strlit("-C");
    reveal_strlit("-DARM_CPU=cortex-a57");
    reveal_strlit("-DCMAKE_INSTALL_PREFIX=");
    reveal_strlit("-DCROSS_COMPILER_PREFIX=aarch64-linux-gnu-");
    reveal_strlit("-DCROSS_COMPILER_PREFIX=riscv64-unknown-linux-gnu-");
    reveal_strlit("-DKernelAllowSMCCalls=ON");
    reveal_strlit("-DKernelArch=arm");
    reveal_strlit("-DKernelArch=riscv");
    reveal_strlit("-DKernelArmExportPCNTUser=ON");
    reveal_strlit("-DKernelArmExportPTMRUser=ON");
    reveal_strlit("-DKernelArmHypervisorSupport=OFF");
    reveal_strlit("-DKernelPlatform=qemu-arm-virt");
    reveal_strlit("-DKernelPlatform=spike");
    reveal_strlit("-DKernelSel4Arch=aarch64");
    reveal_strlit("-DKernelSel4Arch=riscv64");
    reveal_strlit("-DKernelVerificationBuild=OFF");
    reveal_strlit("-DREL4_KERNEL=FALSE");
    reveal_strlit("-DREL4_KERNEL=TRUE");
    reveal_strlit("-G");
    reveal_strlit("-S");
    reveal_strlit("-s");
    reveal_strlit(".");
    reveal_strlit("./kernel-settings-aarch64.cmake");
    reveal_strlit("./kernel-settings-riscv64.cmake");
    reveal_strlit("/build");
    reveal_strlit("Ninja");
    reveal_strlit("build");
    reveal_strlit("cargo");
    reveal_strlit("nightly-2024-02-01");
    reveal_strlit("on");
    reveal_strlit("qemu-arm-virt");
    reveal_strlit("run");
    reveal_strlit("spike");
    reveal_strlit("xtask");
}

/// The composed install-prefix flag never collides with a platform marker.
proof fn lemma_install_flag_ne(prefix: Seq<char>)
    ensures
        install_prefix_flag(prefix) != cross_compiler_flag(Platform::Spike),
        install_prefix_flag(prefix) != cross_compiler_flag(Platform::QemuArmVirt),
        install_prefix_flag(prefix) != settings_file(Platform::Spike),
        install_prefix_flag(prefix) != settings_file(Platform::QemuArmVirt),
        install_prefix_flag(prefix) != kernel_platform_flag(Platform::Spike),
        install_prefix_flag(prefix) != kernel_platform_flag(Platform::QemuArmVirt),
{
    literal_facts();
    let f = install_prefix_flag(prefix);
    assert(f[0] == '-');
    assert(f[3] == 'M');
}

/// The composed build-tree path never collides with a platform marker.
proof fn lemma_build_subdir_ne(source_dir: Seq<char>)
    ensures
        build_subdir(source_dir) != cross_compiler_flag(Platform::Spike),
        build_subdir(source_dir) != cross_compiler_flag(Platform::QemuArmVirt),
        build_subdir(source_dir) != settings_file(Platform::Spike),
        build_subdir(source_dir) != settings_file(Platform::QemuArmVirt),
        build_subdir(source_dir) != kernel_platform_flag(Platform::Spike),
        build_subdir(source_dir) != kernel_platform_flag(Platform::QemuArmVirt),
{
    literal_facts();
    let b = build_subdir(source_dir);
    assert(b.len() == source_dir.len() + 6);
    assert(b[source_dir.len() as int + 5] == 'd');
}

/// Law: for every supported platform, the project configure stage carries
/// the platform's own cross-compiler prefix and kernel-settings file exactly
/// once, and no such flag belonging to the other platform.
pub proof fn lemma_integral_configure_platform_exclusive(cfg: &BuildConfig, source_dir: Seq<char>)
    ensures
        appears_exactly_once(
            integral_configure_args(cfg, source_dir),
            cross_compiler_flag(cfg.platform),
        ),
        appears_exactly_once(integral_configure_args(cfg, source_dir), settings_file(cfg.platform)),
        !appears(
            integral_configure_args(cfg, source_dir),
            cross_compiler_flag(other_platform(cfg.platform)),
        ),
        !appears(
            integral_configure_args(cfg, source_dir),
            settings_file(other_platform(cfg.platform)),
        ),
{
    literal_facts();
    lemma_install_flag_ne(cfg.install_prefix@);
    lemma_build_subdir_ne(source_dir);
    let args = integral_configure_args(cfg, source_dir);
    match cfg.platform {
        Platform::Spike => {
            assert(args[0] == cross_compiler_flag(Platform::Spike));
            assert(args[4] == settings_file(Platform::Spike));
        },
        Platform::QemuArmVirt => {
            assert(args[0] == cross_compiler_flag(Platform::QemuArmVirt));
            assert(args[7] == settings_file(Platform::QemuArmVirt));
        },
    }
}

/// Law: for every supported platform, the project kernel build stage names
/// the platform exactly once and never names the other platform.
pub proof fn lemma_xtask_platform_exclusive(cfg: &BuildConfig)
    ensures
        appears_exactly_once(xtask_build_args(cfg), platform_name(cfg.platform)),
        !appears(xtask_build_args(cfg), platform_name(other_platform(cfg.platform))),
        cfg.platform is Spike ==> !appears(xtask_build_args(cfg), "--arm-pcnt"@),
        cfg.platform is Spike ==> !appears(xtask_build_args(cfg), "--arm-ptmr"@),
{
    literal_facts();
    let args = xtask_build_args(cfg);
    assert(xtask_platform_args(cfg.platform)[1] == platform_name(cfg.platform));
    assert(args[7] == platform_name(cfg.platform));
}

/// Law: for every supported platform, the upstream baseline configure stage
/// carries the platform's own cross-compiler prefix and platform-selection
/// flag exactly once, no such flag of the other platform, and never a
/// project kernel-settings file — the upstream path and the project path
/// stay apart.
pub proof fn lemma_baseline_configure_platform_exclusive(cfg: &BuildConfig, source_dir: Seq<char>)
    ensures
        appears_exactly_once(
            baseline_configure_args(cfg, source_dir),
            cross_compiler_flag(cfg.platform),
        ),
        appears_exactly_once(
            baseline_configure_args(cfg, source_dir),
            kernel_platform_flag(cfg.platform),
        ),
        !appears(
            baseline_configure_args(cfg, source_dir),
            cross_compiler_flag(other_platform(cfg.platform)),
        ),
        !appears(
            baseline_configure_args(cfg, source_dir),
            kernel_platform_flag(other_platform(cfg.platform)),
        ),
        !appears(baseline_configure_args(cfg, source_dir), settings_file(Platform::Spike)),
        !appears(baseline_configure_args(cfg, source_dir), settings_file(Platform::QemuArmVirt)),
{
    literal_facts();
    lemma_install_flag_ne(cfg.install_prefix@);
    lemma_build_subdir_ne(source_dir);
    let args = baseline_configure_args(cfg, source_dir);
    match cfg.platform {
        Platform::Spike => {
            assert(args[0] == cross_compiler_flag(Platform::Spike));
            assert(args[3] == kernel_platform_flag(Platform::Spike));
        },
        Platform::QemuArmVirt => {
            assert(args[0] == cross_compiler_flag(Platform::QemuArmVirt));
            assert(args[8] == kernel_platform_flag(Platform::QemuArmVirt));
        },
    }
}

// ---------------------------------------------------------------------------
// Artifact paths.
// ---------------------------------------------------------------------------
/// Where a binary-mode build leaves the kernel image inside the source tree.
pub open spec fn spec_artifact_source(cfg: &BuildConfig, kernel_dir: Seq<char>) -> Seq<char> {
    kernel_dir + "/target/"@ + binary_target_triple(cfg.platform) + "/release/rel4_kernel"@
}

/// The fixed destination of the installed kernel image under the prefix.
pub open spec fn spec_artifact_dest(cfg: &BuildConfig) -> Seq<char> {
    cfg.install_prefix@ + "/bin/kernel.elf"@
}

/// The platform-and-mode-derived path of the compiled kernel image.
pub fn artifact_source_path(cfg: &BuildConfig, kernel_dir: &str) -> (r: String)
    ensures
        r@ == spec_artifact_source(cfg, kernel_dir@),
{
    let mut r = String::from_str(kernel_dir);
    r.append("/target/");
    match cfg.platform {
        Platform::Spike => r.append("riscv64imac-unknown-none-elf"),
        Platform::QemuArmVirt => r.append("aarch64-unknown-none-softfloat"),
    }
    r.append("/release/rel4_kernel");
    r
}

/// The destination path of the installed kernel image.
pub fn artifact_dest_path(cfg: &BuildConfig) -> (r: String)
    ensures
        r@ == spec_artifact_dest(cfg),
{
    concat_str(cfg.install_prefix.as_str(), "/bin/kernel.elf")
}

} // verus!
