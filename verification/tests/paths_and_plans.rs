use rkos_builder::config::{BuildOption, StartMode};
use rkos_builder::paths::{collect2, collect3, concat3, file_name, join_path};
use rkos_builder::plan::{base_system_plan, build_plan, tasks_to_run, TaskKind};

#[test]
fn join_adds_separator_when_needed() {
    assert_eq!(join_path("a", "b"), "a/b");
    assert_eq!(join_path("a/", "b"), "a/b");
    assert_eq!(join_path("", "b"), "b");
    assert_eq!(join_path("a", ""), "a/");
}

#[test]
fn join_with_absolute_part_replaces_path() {
    assert_eq!(join_path("scripts/", "/etc/fstab"), "/etc/fstab");
}

#[test]
fn collect_builds_nested_paths() {
    assert_eq!(collect3("scripts/", "sysconfig/", "config_fstab.sh"), "scripts/sysconfig/config_fstab.sh");
    assert_eq!(collect3("scripts", "chroot", "mount_vfsys.sh"), "scripts/chroot/mount_vfsys.sh");
    assert_eq!(collect2("scripts/", "chroot/"), "scripts/chroot/");
    assert_eq!(concat3("a", "b", "c"), "abc");
}

#[test]
fn file_name_is_last_component() {
    assert_eq!(file_name("dir/sub/build.sh"), "build.sh");
    assert_eq!(file_name("build.sh"), "build.sh");
}

fn kinds(option: BuildOption) -> Vec<(TaskKind, Vec<usize>)> {
    build_plan(option).into_iter().map(|t| (t.kind, t.after)).collect()
}

#[test]
fn full_build_plan() {
    let plan = kinds(BuildOption::Build);
    assert_eq!(plan.len(), 20);
    assert_eq!(plan[0], (TaskKind::CheckEnv, vec![]));
    assert_eq!(plan[1], (TaskKind::PreparingDirs, vec![0]));
    assert_eq!(plan[9], (TaskKind::RemoveDebugSymbol, vec![8]));
    assert_eq!(plan[12], (TaskKind::Network, vec![9]));
    assert_eq!(plan[18], (TaskKind::InstallRustSupportPackages, vec![12]));
    assert_eq!(plan[19], (TaskKind::ConfigGrub, vec![18]));
    for (i, (_, after)) in plan.iter().enumerate() {
        for d in after {
            assert!(*d < i);
        }
    }
}

#[test]
fn host_config_and_single_task_plans() {
    assert_eq!(kinds(BuildOption::HostConfig), vec![(TaskKind::CheckEnv, vec![]), (TaskKind::PreparingDirs, vec![0])]);
    assert_eq!(kinds(BuildOption::PackageDownload), vec![(TaskKind::PreparingSoftware, vec![])]);
    assert_eq!(kinds(BuildOption::CleanUp), vec![(TaskKind::RemoveDebugSymbol, vec![])]);
    assert_eq!(
        kinds(BuildOption::InstallGrub),
        vec![(TaskKind::CheckEnv, vec![]), (TaskKind::EnterChroot, vec![0]), (TaskKind::ConfigGrub, vec![1])]
    );
}

#[test]
fn config_target_system_plan_waits_for_chroot() {
    let plan = kinds(BuildOption::ConfigTargetSystem);
    assert_eq!(plan.len(), 10);
    assert_eq!(plan[1], (TaskKind::EnterChroot, vec![0]));
    for t in &plan[2..] {
        assert_eq!(t.1, vec![1]);
    }
    assert_eq!(plan[9].0, TaskKind::Time);
}

#[test]
fn reset_runs_nothing() {
    assert!(tasks_to_run(BuildOption::Build, StartMode::Reset).is_empty());
    assert_eq!(tasks_to_run(BuildOption::HostConfig, StartMode::Start).len(), 2);
}

#[test]
fn base_system_plan_is_a_chain() {
    let plan: Vec<(TaskKind, Vec<usize>)> = base_system_plan().into_iter().map(|t| (t.kind, t.after)).collect();
    assert_eq!(
        plan,
        vec![
            (TaskKind::InstallBasicSystemSoftware, vec![]),
            (TaskKind::RemoveDebugSymbol, vec![0]),
            (TaskKind::CleanUpSystem, vec![1]),
        ]
    );
}

#[test]
fn task_labels() {
    assert_eq!(TaskKind::CheckEnv.label(), "Check host env");
    assert_eq!(TaskKind::PreparingDirs.label(), "PREPARE DIRS");
    assert_eq!(TaskKind::InstallRustSupportPackages.label(), "Build rust support package and kernel");
    assert_eq!(TaskKind::ConfigGrub.label(), "Install grub");
}

#[test]
fn full_build_covers_step_by_step_options_in_order() {
    let full: Vec<TaskKind> = build_plan(BuildOption::Build).into_iter().map(|t| t.kind).collect();
    let steps = [
        BuildOption::HostConfig,
        BuildOption::PackageDownload,
        BuildOption::BuildTempToolchains,
        BuildOption::BuildBasePackages,
        BuildOption::ConfigTargetSystem,
        BuildOption::BuildRustSupportPackageAndKernel,
        BuildOption::InstallGrub,
    ];
    let mut last = 0;
    for option in steps {
        let mut first_here = None;
        for t in build_plan(option) {
            let pos = full.iter().position(|k| *k == t.kind).expect("task missing from full build");
            if t.kind != TaskKind::CheckEnv && t.kind != TaskKind::EnterChroot {
                assert!(pos >= last);
                first_here = Some(first_here.map_or(pos, |p: usize| p.max(pos)));
            }
        }
        if let Some(p) = first_here {
            last = p;
        }
    }
}
