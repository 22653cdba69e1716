use rkos_builder::install::{install_package, GlobOutcome, InstallAction, InstallEvent, InstallInfo, PackageInstall};
use rkos_builder::scripts::{build_script_command, chroot_script_command, config_script_command, prepare_script_command};
use rkos_builder::steps::{StepRun, TaskStep};

fn info() -> InstallInfo {
    InstallInfo {
        dir_name: "gcc".to_string(),
        package_name: "gcc".to_string(),
        script_name: "gcc_pass1".to_string(),
        script_path: "scripts/temp/".to_string(),
        package_source_path: "/mnt/lfs/sources/".to_string(),
        package_target_path: "/mnt/lfs/build/".to_string(),
    }
}

fn pattern(m: &PackageInstall) -> String {
    match m.action() {
        InstallAction::FindFile { pattern } => pattern,
        _ => panic!("expected a search"),
    }
}

#[test]
fn chroot_script_environment() {
    let c = chroot_script_command("create_dirs.sh", "scripts/chroot/");
    assert_eq!(c.script, "create_dirs.sh");
    assert_eq!(c.dir.as_deref(), Some("scripts/chroot/"));
    assert!(c.clear_env);
    assert_eq!(c.log_file.as_deref(), Some("/root/log.log"));
    let envs: Vec<(&str, &str)> = c.envs.iter().map(|(a, b)| (a.as_str(), b.as_str())).collect();
    assert_eq!(
        envs,
        vec![
            ("PATH", "/usr/bin:/usr/sbin:/root/.cargo/bin"),
            ("HOME", "/root"),
            ("TERM", "$TERM"),
            ("MAKEFLAGS", "-j8"),
            ("NINJAJOBS", "8")
        ]
    );
}

#[test]
fn other_script_environments() {
    let b = build_script_command("x.sh", "/d");
    assert!(!b.clear_env);
    assert_eq!(b.envs, vec![("MAKEFLAGS".to_string(), "-j8".to_string())]);
    let c = config_script_command("scripts/sysconfig/config_time.sh");
    assert!(c.dir.is_none());
    assert_eq!(c.log_file.as_deref(), Some("/root/config.log"));
    assert_eq!(c.envs.len(), 3);
    let p = prepare_script_command("scripts/prepare/prepare_host_dirs.sh");
    assert!(!p.check_status);
    assert_eq!(p.log_file.as_deref(), Some("/root/prepare.log"));
}

#[test]
fn install_happy_path() {
    let mut m = install_package(info(), true);
    assert_eq!(pattern(&m), "/mnt/lfs/sources/gcc*");
    m.advance(InstallEvent::Searched(GlobOutcome::Found("/mnt/lfs/sources/gcc-13.2.0.tar.xz".to_string())));
    assert_eq!(pattern(&m), "scripts/temp/gcc_pass1*sh");
    m.advance(InstallEvent::Searched(GlobOutcome::Found("scripts/temp/gcc_pass1.sh".to_string())));
    match m.action() {
        InstallAction::Unpack { archive, into } => {
            assert_eq!(archive, "/mnt/lfs/sources/gcc-13.2.0.tar.xz");
            assert_eq!(into, "/mnt/lfs/build/");
        }
        _ => panic!("expected unpack"),
    }
    m.advance(InstallEvent::Unpacked);
    assert_eq!(pattern(&m), "/mnt/lfs/build/gcc*/");
    m.advance(InstallEvent::Searched(GlobOutcome::Found("/mnt/lfs/build/gcc-13.2.0".to_string())));
    match m.action() {
        InstallAction::CopyScript { from, to } => {
            assert_eq!(from, "scripts/temp/gcc_pass1.sh");
            assert_eq!(to, "/mnt/lfs/build/gcc-13.2.0/gcc_pass1.sh");
        }
        _ => panic!("expected copy"),
    }
    m.advance(InstallEvent::Copied(Ok(())));
    match m.action() {
        InstallAction::RunScript { command } => {
            assert_eq!(command.script, "gcc_pass1.sh");
            assert_eq!(command.dir.as_deref(), Some("/mnt/lfs/build/gcc-13.2.0"));
            assert!(command.clear_env);
        }
        _ => panic!("expected run"),
    }
    m.advance(InstallEvent::ScriptExited(true));
    match m.action() {
        InstallAction::RemoveDir { dir } => assert_eq!(dir, "/mnt/lfs/build/gcc-13.2.0"),
        _ => panic!("expected removal"),
    }
    assert!(!m.is_finished());
    m.advance(InstallEvent::Removed);
    assert!(m.is_finished());
    match m.action() {
        InstallAction::Finish { result } => assert_eq!(result, Ok(true)),
        _ => panic!("expected finish"),
    }
}

#[test]
fn install_missing_package_reports_quoted_name() {
    let mut m = install_package(info(), false);
    m.advance(InstallEvent::Searched(GlobOutcome::NoMatch));
    match m.action() {
        InstallAction::Finish { result } => assert_eq!(result, Err("Not found package \"gcc\"".to_string())),
        _ => panic!("expected finish"),
    }
}

#[test]
fn install_missing_script_and_target() {
    let mut m = install_package(info(), false);
    m.advance(InstallEvent::Searched(GlobOutcome::Found("a.tar".to_string())));
    m.advance(InstallEvent::Searched(GlobOutcome::NoMatch));
    match m.action() {
        InstallAction::Finish { result } => assert_eq!(result, Err("Not found script \"gcc\"".to_string())),
        _ => panic!("expected finish"),
    }
    let mut m = install_package(info(), false);
    m.advance(InstallEvent::Searched(GlobOutcome::Found("a.tar".to_string())));
    m.advance(InstallEvent::Searched(GlobOutcome::Found("s.sh".to_string())));
    m.advance(InstallEvent::Unpacked);
    m.advance(InstallEvent::Searched(GlobOutcome::NoMatch));
    match m.action() {
        InstallAction::Finish { result } => assert_eq!(result, Err("Can not get target path gcc".to_string())),
        _ => panic!("expected finish"),
    }
}

#[test]
fn install_pattern_error_and_copy_error_end_install() {
    let mut m = install_package(info(), false);
    m.advance(InstallEvent::Searched(GlobOutcome::PatternError("bad pattern".to_string())));
    assert!(m.is_finished());
    let mut m = install_package(info(), false);
    m.advance(InstallEvent::Searched(GlobOutcome::Found("a.tar".to_string())));
    m.advance(InstallEvent::Searched(GlobOutcome::Found("s.sh".to_string())));
    m.advance(InstallEvent::Unpacked);
    m.advance(InstallEvent::Searched(GlobOutcome::Found("/b/gcc".to_string())));
    m.advance(InstallEvent::Copied(Err("no space".to_string())));
    match m.action() {
        InstallAction::Finish { result } => assert_eq!(result, Err("no space".to_string())),
        _ => panic!("expected finish"),
    }
}

#[test]
fn failed_script_still_removes_directory() {
    let mut m = install_package(info(), false);
    m.advance(InstallEvent::Searched(GlobOutcome::Found("a.tar".to_string())));
    m.advance(InstallEvent::Searched(GlobOutcome::Found("s.sh".to_string())));
    m.advance(InstallEvent::Unpacked);
    m.advance(InstallEvent::Searched(GlobOutcome::Found("/b/gcc-1".to_string())));
    m.advance(InstallEvent::Copied(Ok(())));
    match m.action() {
        InstallAction::RunScript { command } => assert!(!command.clear_env),
        _ => panic!("expected run"),
    }
    m.advance(InstallEvent::ScriptExited(false));
    assert!(matches!(m.action(), InstallAction::RemoveDir { .. }));
    m.advance(InstallEvent::Removed);
    match m.action() {
        InstallAction::Finish { result } => assert_eq!(result, Err("Package \"/b/gcc-1\" install failed".to_string())),
        _ => panic!("expected finish"),
    }
}

#[test]
fn unexpected_event_is_ignored() {
    let mut m = install_package(info(), false);
    m.advance(InstallEvent::Removed);
    assert_eq!(pattern(&m), "/mnt/lfs/sources/gcc*");
}

#[test]
fn step_run_stops_at_first_failure() {
    let steps = vec![
        TaskStep::Chroot { root: "/mnt/lfs".to_string() },
        TaskStep::SetCurrentDir { dir: "/".to_string() },
        TaskStep::SetCurrentDir { dir: "/tmp".to_string() },
    ];
    let mut run = StepRun::new(steps);
    assert!(matches!(run.next_step(), Some(TaskStep::Chroot { .. })));
    run.record(true);
    assert!(matches!(run.next_step(), Some(TaskStep::SetCurrentDir { .. })));
    run.record(false);
    assert!(run.next_step().is_none());
    assert!(run.is_finished());
    assert!(!run.succeeded());
    run.record(true);
    assert!(run.failed);
    assert_eq!(run.done, 1);
}

#[test]
fn step_run_succeeds_when_all_steps_do() {
    let mut run = StepRun::new(vec![TaskStep::SetCurrentDir { dir: "/".to_string() }]);
    run.record(true);
    assert!(run.succeeded());
    let empty = StepRun::new(Vec::new());
    assert!(empty.succeeded());
}

#[test]
fn failed_script_message_formats_the_directory_as_a_path() {
    let mut m = install_package(info(), false);
    m.advance(InstallEvent::Searched(GlobOutcome::Found("a.tar".to_string())));
    m.advance(InstallEvent::Searched(GlobOutcome::Found("s.sh".to_string())));
    m.advance(InstallEvent::Unpacked);
    m.advance(InstallEvent::Searched(GlobOutcome::Found("/b/it's".to_string())));
    m.advance(InstallEvent::Copied(Ok(())));
    m.advance(InstallEvent::ScriptExited(false));
    m.advance(InstallEvent::Removed);
    match m.action() {
        InstallAction::Finish { result } => assert_eq!(
            result,
            Err(format!("Package {:?} install failed", std::path::Path::new("/b/it's")))
        ),
        _ => panic!("expected finish"),
    }
}
