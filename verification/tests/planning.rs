//! Tests of the composed stages and the planned pipelines.

use rel4_install::acquire::{acquire_decision, AcquireDecision};
use rel4_install::compose::{
    compose_baseline_configure, compose_fixup, compose_integral_configure, compose_rel4_clone,
};
use rel4_install::config::{BuildConfig, Platform, SourceSpec};
use rel4_install::plan::{install, install_kernel, kernel_loader_steps, AcquirePlan, Step};
use rel4_install::stage::BuildStage;

fn remote_config(platform: Platform) -> BuildConfig {
    BuildConfig {
        platform,
        mcs: false,
        fastpath_enabled: true,
        binary_mode: false,
        install_prefix: String::from("/workspace/.seL4"),
        source: SourceSpec::Remote { branch: String::from("master") },
        force_refetch: false,
        baseline_revision: None,
        staging_root: String::from("/tmp"),
    }
}

fn strings(raw: &[&str]) -> Vec<String> {
    raw.iter().map(|s| String::from(*s)).collect()
}

fn run_stages(steps: &[Step]) -> Vec<&BuildStage> {
    steps
        .iter()
        .filter_map(|s| match s {
            Step::Run { stage, .. } => Some(stage),
            _ => None,
        })
        .collect()
}

fn stage_has_arg(stage: &BuildStage, arg: &str) -> bool {
    stage.args.iter().any(|a| a == arg)
}

#[test]
fn integral_configure_args_spike_exact() {
    let mut cfg = remote_config(Platform::Spike);
    cfg.binary_mode = true;
    let stage = compose_integral_configure(&cfg, "/tmp/seL4_kernel");
    assert_eq!(stage.tool, "cmake");
    assert_eq!(
        stage.args,
        strings(&[
            "-DCROSS_COMPILER_PREFIX=riscv64-unknown-linux-gnu-",
            "-DCMAKE_INSTALL_PREFIX=/workspace/.seL4",
            "-DREL4_KERNEL=TRUE",
            "-C",
            "./kernel-settings-riscv64.cmake",
            "-G",
            "Ninja",
            "-S",
            ".",
            "-B",
            "/tmp/seL4_kernel/build",
        ])
    );
    assert_eq!(stage.working_dir, Some(String::from("/tmp/seL4_kernel")));
    assert!(stage.env_overrides.is_empty());
    assert!(stage.env_removals.is_empty());
}

#[test]
fn baseline_configure_args_qemu_exact() {
    let cfg = remote_config(Platform::QemuArmVirt);
    let stage = compose_baseline_configure(&cfg, "/tmp/seL4_kernel");
    assert_eq!(stage.tool, "cmake");
    assert_eq!(
        stage.args,
        strings(&[
            "-DCROSS_COMPILER_PREFIX=aarch64-linux-gnu-",
            "-DKernelAllowSMCCalls=ON",
            "-DCMAKE_INSTALL_PREFIX=/workspace/.seL4",
            "-DKernelArmExportPCNTUser=ON",
            "-DKernelArmExportPTMRUser=ON",
            "-DARM_CPU=cortex-a57",
            "-DKernelArch=arm",
            "-DKernelArmHypervisorSupport=OFF",
            "-DKernelPlatform=qemu-arm-virt",
            "-DKernelSel4Arch=aarch64",
            "-DKernelVerificationBuild=OFF",
            "-G",
            "Ninja",
            "-S",
            ".",
            "-B",
            "/tmp/seL4_kernel/build",
        ])
    );
}

#[test]
fn rel4_clone_is_shallow_and_branched() {
    let stage = compose_rel4_clone("/tmp/rel4_kernel", "dev");
    assert_eq!(stage.tool, "git");
    assert_eq!(
        stage.args,
        strings(&[
            "clone",
            "https://github.com/reL4team2/rel4-integral.git",
            "/tmp/rel4_kernel",
            "--config",
            "advice.detachedHead=false",
            "--depth",
            "1",
            "--branch",
            "dev",
        ])
    );
    assert_eq!(stage.working_dir, None);
}

#[test]
fn fixup_pins_the_dependency() {
    let stage = compose_fixup("/tmp/rel4_kernel");
    assert_eq!(stage.tool, "cargo");
    assert_eq!(stage.args, strings(&["update", "home@0.5.11", "--precise", "0.5.5"]));
    assert_eq!(stage.working_dir, Some(String::from("/tmp/rel4_kernel")));
}

#[test]
fn platform_flags_appear_exactly_once() {
    let spike = remote_config(Platform::Spike);
    let qemu = remote_config(Platform::QemuArmVirt);
    let count = |stage: &BuildStage, arg: &str| stage.args.iter().filter(|a| *a == arg).count();
    let spike_cmake = compose_integral_configure(&spike, "/tmp/seL4_kernel");
    let qemu_cmake = compose_integral_configure(&qemu, "/tmp/seL4_kernel");
    let spike_cross = "-DCROSS_COMPILER_PREFIX=riscv64-unknown-linux-gnu-";
    let qemu_cross = "-DCROSS_COMPILER_PREFIX=aarch64-linux-gnu-";
    assert_eq!(count(&spike_cmake, spike_cross), 1);
    assert_eq!(count(&spike_cmake, qemu_cross), 0);
    assert_eq!(count(&spike_cmake, "./kernel-settings-riscv64.cmake"), 1);
    assert_eq!(count(&spike_cmake, "./kernel-settings-aarch64.cmake"), 0);
    assert_eq!(count(&qemu_cmake, qemu_cross), 1);
    assert_eq!(count(&qemu_cmake, spike_cross), 0);
    assert_eq!(count(&qemu_cmake, "./kernel-settings-aarch64.cmake"), 1);
    assert_eq!(count(&qemu_cmake, "./kernel-settings-riscv64.cmake"), 0);
    let spike_build = run_stages(&install_kernel(&spike))[0].clone();
    let qemu_build = run_stages(&install_kernel(&qemu))[0].clone();
    assert_eq!(count(&spike_build, "spike"), 1);
    assert_eq!(count(&spike_build, "qemu-arm-virt"), 0);
    assert_eq!(count(&spike_build, "--arm-pcnt"), 0);
    assert_eq!(count(&spike_build, "--arm-ptmr"), 0);
    assert_eq!(count(&qemu_build, "qemu-arm-virt"), 1);
    assert_eq!(count(&qemu_build, "spike"), 0);
    assert_eq!(count(&qemu_build, "--arm-pcnt"), 1);
    assert_eq!(count(&qemu_build, "--arm-ptmr"), 1);
}

#[test]
fn scenario_qemu_lib_mode_plans_no_installer_step() {
    let cfg = remote_config(Platform::QemuArmVirt);
    let steps = install_kernel(&cfg);
    assert!(steps.iter().all(|s| !matches!(s, Step::InstallArtifact { .. })));
    let stages = run_stages(&steps);
    let xtask = stages[0];
    assert_eq!(xtask.tool, "rustup");
    assert_eq!(
        xtask.args,
        strings(&[
            "run",
            "nightly-2024-02-01",
            "cargo",
            "xtask",
            "build",
            "--rust-only",
            "--platform",
            "qemu-arm-virt",
            "-s",
            "on",
            "--arm-pcnt",
            "--arm-ptmr",
        ])
    );
    assert!(!stage_has_arg(xtask, "--mcs"));
    assert!(!stage_has_arg(xtask, "--bin"));
}

#[test]
fn scenario_spike_binary_mode_reuses_staging_and_installs_elf() {
    let mut cfg = remote_config(Platform::Spike);
    cfg.binary_mode = true;
    // The staging tree is already populated and no re-fetch is forced: the
    // acquirer performs no clone.
    assert_eq!(
        acquire_decision(&cfg.source, cfg.force_refetch, true),
        AcquireDecision::ReuseStaging
    );
    let steps = install_kernel(&cfg);
    let xtask = run_stages(&steps)[0];
    assert!(stage_has_arg(xtask, "--platform"));
    assert!(stage_has_arg(xtask, "spike"));
    assert!(stage_has_arg(xtask, "--bin"));
    let artifacts: Vec<&Step> = steps
        .iter()
        .filter(|s| matches!(s, Step::InstallArtifact { .. }))
        .collect();
    assert_eq!(artifacts.len(), 1);
    match artifacts[0] {
        Step::InstallArtifact { source, dest } => {
            assert_eq!(
                source,
                "/tmp/rel4_kernel/target/riscv64imac-unknown-none-elf/release/rel4_kernel"
            );
            assert_eq!(dest, "/workspace/.seL4/bin/kernel.elf");
        }
        _ => unreachable!(),
    }
}

#[test]
fn scenario_baseline_revision_routes_to_upstream_path() {
    let mut cfg = remote_config(Platform::QemuArmVirt);
    cfg.baseline_revision = Some(String::from("abc123"));
    let steps = install_kernel(&cfg);
    // The source is always re-cloned and then pinned to the revision.
    match &steps[0] {
        Step::EnsureSource { plan: AcquirePlan::Staged { force_refetch, post_clone, fixup, .. } } => {
            assert!(force_refetch);
            assert!(fixup.is_none());
            let checkout = post_clone.as_ref().unwrap();
            assert_eq!(checkout.tool, "git");
            assert_eq!(checkout.args, strings(&["checkout", "abc123"]));
        }
        other => panic!("expected a staged acquisition, got {:?}", other),
    }
    // The upstream configure flags are used and the project settings file
    // is never named anywhere in the plan.
    let stages = run_stages(&steps);
    assert!(stage_has_arg(stages[0], "-DKernelPlatform=qemu-arm-virt"));
    for stage in &stages {
        assert!(!stage_has_arg(stage, "./kernel-settings-aarch64.cmake"));
        assert!(!stage_has_arg(stage, "./kernel-settings-riscv64.cmake"));
    }
}

#[test]
fn install_appends_the_loader_flow() {
    let cfg = remote_config(Platform::QemuArmVirt);
    let kernel = install_kernel(&cfg);
    let loader = kernel_loader_steps(&cfg);
    let all = install(&cfg);
    assert_eq!(all.len(), kernel.len() + loader.len());
    assert_eq!(&all[..kernel.len()], &kernel[..]);
    assert_eq!(&all[kernel.len()..], &loader[..]);
}

#[test]
fn loader_stages_pin_the_toolchain_environment() {
    let mut cfg = remote_config(Platform::QemuArmVirt);
    cfg.force_refetch = true;
    let steps = kernel_loader_steps(&cfg);
    let stages = run_stages(&steps);
    assert_eq!(stages.len(), 2);
    let payload = stages[0];
    let loader = stages[1];
    for stage in [payload, loader] {
        assert_eq!(stage.tool, "rustup");
        assert_eq!(
            stage.env_removals,
            strings(&["RUSTUP_TOOLCHAIN", "CARGO"])
        );
        assert!(stage_has_arg(stage, "--force"));
    }
    assert!(stage_has_arg(payload, "sel4-kernel-loader-add-payload"));
    assert!(payload.env_overrides.is_empty());
    assert!(stage_has_arg(loader, "sel4-kernel-loader"));
    assert!(stage_has_arg(loader, "--target"));
    assert!(stage_has_arg(loader, "aarch64-unknown-none"));
    assert_eq!(
        loader.env_overrides,
        vec![
            (String::from("SEL4_PREFIX"), String::from("/workspace/.seL4")),
            (
                String::from("CC_aarch64_unknown_none"),
                String::from("aarch64-linux-gnu-gcc")
            ),
        ]
    );
}

#[test]
fn spike_loader_uses_the_riscv_triple() {
    let cfg = remote_config(Platform::Spike);
    let steps = kernel_loader_steps(&cfg);
    let stages = run_stages(&steps);
    assert!(stage_has_arg(stages[1], "riscv64imac-unknown-none-elf"));
    assert!(!stage_has_arg(stages[0], "--force"));
}

#[test]
fn local_source_plan_builds_in_place() {
    let mut cfg = remote_config(Platform::QemuArmVirt);
    cfg.source = SourceSpec::Local { path: String::from("/src/rel4") };
    let steps = install_kernel(&cfg);
    match &steps[0] {
        Step::EnsureSource { plan } => {
            assert_eq!(plan, &AcquirePlan::Local { path: String::from("/src/rel4") });
        }
        other => panic!("expected an acquisition step, got {:?}", other),
    }
    match &steps[1] {
        Step::Run { stage, .. } => {
            assert_eq!(stage.working_dir, Some(String::from("/src/rel4")));
        }
        other => panic!("expected the kernel build, got {:?}", other),
    }
    match &steps[2] {
        Step::EnsureSource { plan } => {
            assert_eq!(
                plan,
                &AcquirePlan::Local { path: String::from("/src/rel4/../kernel") }
            );
        }
        other => panic!("expected an acquisition step, got {:?}", other),
    }
}

#[test]
fn remote_kernel_acquisition_carries_clone_and_fixup() {
    let cfg = remote_config(Platform::Spike);
    let steps = install_kernel(&cfg);
    match &steps[0] {
        Step::EnsureSource {
            plan: AcquirePlan::Staged { staging_path, clone, force_refetch, fixup, post_clone },
        } => {
            assert_eq!(staging_path, "/tmp/rel4_kernel");
            assert_eq!(clone.tool, "git");
            assert!(!force_refetch);
            assert!(post_clone.is_none());
            let fixup = fixup.as_ref().unwrap();
            assert_eq!(fixup.tool, "cargo");
            assert_eq!(fixup.working_dir, Some(String::from("/tmp/rel4_kernel")));
        }
        other => panic!("expected a staged acquisition, got {:?}", other),
    }
}
