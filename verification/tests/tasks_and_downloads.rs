use rkos_builder::build_temp_toolchain::PackageInput;
use rkos_builder::config::{BuildOption, Cli, StartMode};
use rkos_builder::prepare_host_sys::{BackupBashProfile, CleanOldConfig, MountTargetPart, ResetAllSystemConfig};
use rkos_builder::utils::ConfigChrootEnv;
use rkos_builder::build_lfs_sys::{InstallBasicSystemSoftware, RemoveDebugSymbol};
use rkos_builder::build_rust_packages::InstallRustSupportPackages;
use rkos_builder::build_temp_toolchain::{AfterChroot, AfterChrootInstall, CompilingCrossToolChain};
use rkos_builder::config::{
    AllPackages, BaseConfig, BasePackages, BasePackagesInfo, Configs, CrossCompilePackages,
    CrossCompilePackagesInfo, EnvsInfo, HostInfo, PackageInfo, PatchInfo, PathInfo,
    RustSupportPackageInfo, RustSupportPackages, ScriptsPath,
};
use rkos_builder::config_sys::{ConfigGrub, Fstab, InstallKernel};
use rkos_builder::download::{download_command, DownloadAction, DownloadEvent, DownloadRun};
use rkos_builder::prepare_host_sys::{CheckEnv, EnvUpdate, PreparingDirs, PreparingEnv, PreparingSoftware};
use rkos_builder::steps::{install_steps, StepRun, TaskStep};
use rkos_builder::utils::EnterChroot;

fn s(x: &str) -> String {
    x.to_string()
}

fn config() -> BaseConfig {
    BaseConfig {
        host_info: HostInfo { target_part: s("/mnt/lfs"), stop_flag: s("stop") },
        scripts_path: ScriptsPath {
            root: s("scripts/"),
            build_base_packages: s("base/"),
            build_temp_toolchains: s("temp/"),
            build_rust_support_packages: s("rust/"),
            chroot: s("chroot/"),
            clean: s("clean/"),
            prepare: s("prepare/"),
            release: s("release/"),
            sysconfig: s("sysconfig/"),
        },
        configs: Configs {
            root: s("configs/"),
            package_info: s("all.json"),
            base_packages: s("base.json"),
            temp_toolchains: s("temp.json"),
            rust_support_packages: s("rust.json"),
        },
        path: PathInfo {
            root: s("/"),
            package_source: s("/sources/"),
            package_build: s("/build/"),
            package_patches: s("patches/"),
            install_path: s("/mnt/lfs"),
        },
        envs: vec![EnvsInfo { name: s("LFS"), value: s("/mnt/lfs") }],
    }
}

fn cross(name: &str, pkg: &str, script: &str) -> CrossCompilePackagesInfo {
    CrossCompilePackagesInfo { name: s(name), package_name: s(pkg), script: s(script) }
}

fn script_of(step: &TaskStep) -> String {
    match step {
        TaskStep::Script(c) => c.script.clone(),
        _ => panic!("expected a script"),
    }
}

#[test]
fn temporary_tool_chain_installs_in_order() {
    let packages = CrossCompilePackages {
        cross_compile_toolchains: vec![cross("binutils", "binutils", "binutils_pass1")],
        cross_compile_packages: vec![cross("m4", "m4", "m4"), cross("ncurses", "ncurses", "ncurses")],
        after_chroot_packages: vec![cross("gettext", "gettext", "gettext")],
    };
    let installs = CompilingCrossToolChain {}.before_chroot_install_packages(&config(), &packages);
    assert_eq!(installs.len(), 3);
    assert_eq!(installs[0].script_name, "binutils_pass1");
    assert_eq!(installs[0].script_path, "scripts/temp/");
    assert_eq!(installs[0].package_source_path, "/mnt/lfs/sources/");
    assert_eq!(installs[0].package_target_path, "/mnt/lfs/build/");
    assert_eq!(installs[2].dir_name, "ncurses");
    let steps = CompilingCrossToolChain {}.steps(&config(), &packages);
    assert!(matches!(&steps[1], TaskStep::Install { chroot: false, .. }));
    CompilingCrossToolChain {}.check_data(s("m4"));

    let after = AfterChrootInstall {}.after_chroot_install_packages(&config(), &packages);
    assert_eq!(after.len(), 1);
    assert_eq!(after[0].package_source_path, "/sources/");
    assert_eq!(after[0].package_target_path, "/build/");
    assert!(matches!(&AfterChrootInstall {}.steps(&config(), &packages)[0], TaskStep::Install { chroot: true, .. }));
}

#[test]
fn base_and_rust_packages_use_their_names_as_directories() {
    let base = BasePackages {
        base_packages: vec![BasePackagesInfo { name: s("tcl"), package_name: s("tcl8.6"), script: s("tcl") }],
    };
    let installs = InstallBasicSystemSoftware {}.installs(&config(), &base);
    assert_eq!(installs[0].dir_name, "tcl");
    assert_eq!(installs[0].package_name, "tcl8.6");
    assert_eq!(installs[0].script_path, "scripts/base/");
    let rust = RustSupportPackages {
        rust_support_packages: vec![RustSupportPackageInfo { name: s("rustc"), package_name: s("rustc-1"), script: s("rust") }],
    };
    let installs = InstallRustSupportPackages {}.installs(&config(), &rust);
    assert_eq!(installs[0].script_path, "scripts/rust/");
    assert_eq!(InstallRustSupportPackages {}.steps(&config(), &rust).len(), 1);
}

#[test]
fn script_tasks_paths() {
    let c = config();
    let after = AfterChroot {}.steps(&c);
    assert_eq!(script_of(&after[0]), "create_dirs.sh");
    assert_eq!(script_of(&after[1]), "create_files.sh");
    match &after[0] {
        TaskStep::Script(cmd) => assert_eq!(cmd.dir.as_deref(), Some("scripts/chroot/")),
        _ => panic!(),
    }
    let rds = RemoveDebugSymbol {}.steps(&c);
    match &rds[0] {
        TaskStep::Script(cmd) => assert_eq!(cmd.dir.as_deref(), Some("scripts/clean/")),
        _ => panic!(),
    }
    assert_eq!(script_of(&Fstab {}.steps(&c)[0]), "scripts/sysconfig/config_fstab.sh");
    assert_eq!(script_of(&ConfigGrub {}.steps(&c)[0]), "scripts/sysconfig/config_grub.sh");
    assert!(InstallKernel {}.steps(&c).is_empty());
    assert_eq!(script_of(&PreparingDirs {}.steps(&c)[0]), "scripts/prepare/prepare_host_dirs.sh");
    let enter = EnterChroot {}.steps(&c);
    assert_eq!(script_of(&enter[0]), "scripts/chroot/target_path_chown.sh");
    assert_eq!(script_of(&enter[1]), "scripts/chroot/mount_vfsys.sh");
    assert!(matches!(&enter[2], TaskStep::Chroot { root } if root == "/mnt/lfs"));
    let mut other = config();
    other.path.install_path = s("/mnt/other/");
    let enter = EnterChroot {}.steps(&other);
    assert!(matches!(&enter[2], TaskStep::Chroot { root } if root == "/mnt/other/"));
    assert!(matches!(&enter[3], TaskStep::SetCurrentDir { dir } if dir == "/"));
}

#[test]
fn download_command_text() {
    assert_eq!(download_command("/build/", "https://x/y.tar"), "wget -P /build/ https://x/y.tar");
}

fn packages() -> AllPackages {
    AllPackages {
        all_packages: vec![
            PackageInfo { name: s("a.tar"), url: s("u/a") },
            PackageInfo { name: s("b.tar"), url: s("u/b") },
        ],
        package_patches: vec![PatchInfo { name: s("p.patch"), url: s("u/p") }],
    }
}

#[test]
fn download_items() {
    let items = PreparingSoftware {}.downloads(&config(), &packages());
    assert_eq!(items.len(), 3);
    assert_eq!(items[0].pattern, "/build/a.tar");
    assert_eq!(items[0].dir, "/build/");
    assert!(items[0].remove_partial);
    assert_eq!(items[2].pattern, "/sources/patches/p.patch");
    assert_eq!(items[2].dir, "/sources/patches/");
    assert!(!items[2].remove_partial);
}

#[test]
fn download_run_retries_five_times_then_fails() {
    let mut run = PreparingSoftware {}.preparing_base_software(&config(), &packages());
    // a.tar is already there
    assert!(matches!(run.action(), DownloadAction::CheckExists { pattern } if pattern == "/build/a.tar"));
    run.advance(DownloadEvent::Checked(true));
    // b.tar: five failed attempts, each after removing a partial copy
    run.advance(DownloadEvent::Checked(false));
    let mut downloads = 0;
    for _ in 0..5 {
        assert!(matches!(run.action(), DownloadAction::RemovePartial { .. }));
        run.advance(DownloadEvent::Removed);
        match run.action() {
            DownloadAction::Download { command } => assert_eq!(command, "wget -P /build/ u/b"),
            _ => panic!("expected a download"),
        }
        downloads += 1;
        run.advance(DownloadEvent::Fetched(Ok(false)));
    }
    assert_eq!(downloads, 5);
    // the patch downloads at the second attempt, with no removal
    assert!(matches!(run.action(), DownloadAction::CheckExists { .. }));
    run.advance(DownloadEvent::Checked(false));
    run.advance(DownloadEvent::Fetched(Err(s("cannot start"))));
    assert!(matches!(run.action(), DownloadAction::Download { .. }));
    run.advance(DownloadEvent::Fetched(Ok(true)));
    assert_eq!(run.statuses, vec![(s("b.tar"), false), (s("p.patch"), true)]);
    assert!(matches!(run.action(), DownloadAction::Finish { failed: true }));
}

#[test]
fn later_success_overrides_earlier_failure_of_same_name() {
    let all = AllPackages {
        all_packages: vec![PackageInfo { name: s("x"), url: s("u1") }],
        package_patches: vec![PatchInfo { name: s("x"), url: s("u2") }],
    };
    let mut run = DownloadRun::new(PreparingSoftware {}.downloads(&config(), &all));
    run.advance(DownloadEvent::Checked(false));
    for _ in 0..5 {
        run.advance(DownloadEvent::Removed);
        run.advance(DownloadEvent::Fetched(Ok(false)));
    }
    run.advance(DownloadEvent::Checked(false));
    run.advance(DownloadEvent::Fetched(Ok(true)));
    assert!(!run.some_failed());
    assert!(matches!(run.action(), DownloadAction::Finish { failed: false }));
}

#[test]
fn env_updates() {
    let wanted = EnvsInfo { name: s("LFS"), value: s("/mnt/lfs") };
    assert!(matches!(CheckEnv {}.update(Some(s("/mnt/lfs")), &wanted), EnvUpdate::Keep));
    assert!(matches!(CheckEnv {}.update(Some(s("/mnt/x")), &wanted), EnvUpdate::Reset { from } if from == "/mnt/x"));
    assert!(matches!(CheckEnv {}.update(None, &wanted), EnvUpdate::SetNew));
}

#[test]
fn host_links() {
    let links = PreparingEnv {}.prepare_env();
    assert_eq!(links[0], (s("/usr/bin/sh"), s("sudo ln -s /usr/bin/bash /usr/bin/sh")));
    assert_eq!(links[2], (s("/usr/bin/awk"), s("sudo ln -s /usr/bin/gawk /usr/bin/awk")));
}

#[test]
fn bash_profile_backup_only_when_needed() {
    assert_eq!(BackupBashProfile {}.backup(true), None);
    assert!(BackupBashProfile {}.handed_on(true));
    assert!(!BackupBashProfile {}.handed_on(false));
    assert_eq!(
        BackupBashProfile {}.backup(false),
        Some((s("/root/.bash_profile"), s("/root/.bash_profile.bak")))
    );
}

#[test]
fn tasks_without_steps() {
    assert!(CleanOldConfig {}.steps().is_empty());
    assert!(ResetAllSystemConfig {}.steps().is_empty());
    assert!(MountTargetPart {}.steps().is_empty());
    assert!(ConfigChrootEnv {}.steps().is_empty());
}

#[test]
fn package_input_hands_on_command_line_name() {
    let cli = Cli {
        build_option: BuildOption::Build,
        config: None,
        operate: StartMode::Start,
        package_name: s("NULL"),
        debug: 0,
    };
    assert_eq!(PackageInput {}.package_name(&cli), "NULL");
}

#[test]
fn failed_tool_chain_install_names_the_package() {
    let packages = CrossCompilePackages {
        cross_compile_toolchains: vec![cross("binutils", "binutils-2.41", "binutils_pass1")],
        cross_compile_packages: vec![cross("m4", "m4-1.4", "m4"), cross("ncurses", "ncurses-6", "ncurses")],
        after_chroot_packages: vec![cross("gettext", "gettext-0.22", "gettext")],
    };
    let task = CompilingCrossToolChain {};
    let installs = task.before_chroot_install_packages(&config(), &packages);
    let mut run = StepRun::new(install_steps(&installs, false));
    run.record(true);
    run.record(false);
    assert!(run.next_step().is_none());
    assert_eq!(task.install_result(&installs, &run), Err(s("Failed install package m4-1.4")));

    let mut ok_run = StepRun::new(install_steps(&installs, false));
    for _ in 0..3 {
        ok_run.record(true);
    }
    assert_eq!(task.install_result(&installs, &ok_run), Ok(()));

    let after = AfterChrootInstall {};
    let installs = after.after_chroot_install_packages(&config(), &packages);
    let mut run = StepRun::new(install_steps(&installs, true));
    run.record(false);
    assert_eq!(after.install_result(&installs, &run), Err(s("Failed install package gettext-0.22")));
}
