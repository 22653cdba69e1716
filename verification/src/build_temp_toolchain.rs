use vstd::prelude::*;
use crate::config::{BaseConfig, Cli, CrossCompilePackages, CrossCompilePackagesInfo};
use crate::install::{make_install_info, spec_install_info, InstallInfo, InstallInfoView};
use crate::paths::{collect2, concat2, spec_collect};
use crate::scripts::chroot_script_command;
use crate::steps::{lemma_run_stops_at_first_failure, spec_replay, install_steps, is_chroot_script, is_install, StepRun, TaskStep};
use vstd::string::*;

verus! {

/// Hands on the package name given on the command line.
pub struct PackageInput {}

impl PackageInput {
    /// The package named on the command line.
    pub fn package_name(&self, cli: &Cli) -> (res: String)
        ensures
            res@ == cli.package_name@,
    {
        cli.package_name.clone()
    }
}

/// The install request for a package of the temporary tool chain, with its
/// build script taken from `script_path`.
pub open spec fn spec_temp_info(
    p: CrossCompilePackagesInfo,
    script_path: Seq<char>,
    source: Seq<char>,
    target: Seq<char>,
) -> InstallInfoView {
    spec_install_info(p.package_name@, p.package_name@, p.script@, script_path, source, target)
}

/// Appends the install requests of `list`, in order, to `out`.
fn push_temp_installs(
    out: &mut Vec<InstallInfo>,
    list: &Vec<CrossCompilePackagesInfo>,
    script_path: &str,
    source: &str,
    target: &str,
)
    ensures
        final(out)@.len() == old(out)@.len() + list@.len(),
        forall|i: int| 0 <= i < old(out)@.len() ==> #[trigger] final(out)@[i]@ == old(out)@[i]@,
        forall|i: int| 0 <= i < list@.len() ==> #[trigger] final(out)@[old(out)@.len() + i]@
            == spec_temp_info(list@[i], script_path@, source@, target@),
{
    let ghost start = out@;
    let mut i: usize = 0;
    while i < list.len()
        invariant
            i <= list@.len(),
            out@.len() == start.len() + i,
            forall|j: int| 0 <= j < start.len() ==> #[trigger] out@[j]@ == start[j]@,
            forall|j: int| 0 <= j < i ==> #[trigger] out@[start.len() + j]@
                == spec_temp_info(list@[j], script_path@, source@, target@),
        decreases list@.len() - i,
    {
        let p = &list[i];
        out.push(make_install_info(
            p.package_name.as_str(),
            p.package_name.as_str(),
            p.script.as_str(),
            script_path,
            source,
            target,
        ));
        i = i + 1;
    }
}

/// The result of a run of install steps over `installs`: success unless
/// the run failed, and then the error names the package whose install
/// failed (a failed run that stopped past its last step, which a
/// well-formed run never does, names none).
pub open spec fn spec_install_run_result(installs: Seq<InstallInfo>, done: nat, failed: bool) -> Result<(), Seq<char>> {
    if !failed {
        Ok(())
    } else if done < installs.len() {
        Err("Failed install package "@ + installs[done as int].package_name@)
    } else {
        Err("Failed install package "@)
    }
}

/// A result with its error as a character sequence.
pub open spec fn unit_result_view(r: Result<(), String>) -> Result<(), Seq<char>> {
    match r {
        Ok(()) => Ok(()),
        Err(e) => Err(e@),
    }
}

/// The result of `run`, a run of one install step per request of `installs`.
pub fn install_run_result(installs: &Vec<InstallInfo>, run: &StepRun) -> (res: Result<(), String>)
    ensures
        unit_result_view(res) == spec_install_run_result(installs@, run.done as nat, run.failed),
{
    if !run.failed {
        Ok(())
    } else if run.done < installs.len() {
        Err(concat2("Failed install package ", installs[run.done].package_name.as_str()))
    } else {
        Err(String::from_str("Failed install package "))
    }
}

/// Builds the temporary cross tool chain and the tools needed before
/// entering the new root.
pub struct CompilingCrossToolChain {}

impl CompilingCrossToolChain {
    /// The installs to run, in order: the tool chain packages, then the
    /// other temporary packages. Their scripts come from the temporary tool
    /// chain script directory; archives are taken from, and unpacked into,
    /// the source and build directories under the install path.
    pub fn before_chroot_install_packages(&self, config: &BaseConfig, packages: &CrossCompilePackages) -> (installs: Vec<InstallInfo>)
        ensures
            installs@.len() == packages.cross_compile_toolchains@.len() + packages.cross_compile_packages@.len(),
            forall|i: int| 0 <= i < packages.cross_compile_toolchains@.len() ==> #[trigger] installs@[i]@
                == spec_temp_info(
                    packages.cross_compile_toolchains@[i],
                    config.scripts_path.root@ + config.scripts_path.build_temp_toolchains@,
                    config.path.install_path@ + config.path.package_source@,
                    config.path.install_path@ + config.path.package_build@,
                ),
            forall|i: int| 0 <= i < packages.cross_compile_packages@.len() ==>
                #[trigger] installs@[packages.cross_compile_toolchains@.len() + i]@
                == spec_temp_info(
                    packages.cross_compile_packages@[i],
                    config.scripts_path.root@ + config.scripts_path.build_temp_toolchains@,
                    config.path.install_path@ + config.path.package_source@,
                    config.path.install_path@ + config.path.package_build@,
                ),
            forall|i: int| 0 <= i < packages.cross_compile_toolchains@.len() ==> {
                &&& (#[trigger] installs@[i]).dir_name@ == packages.cross_compile_toolchains@[i].package_name@
                &&& installs@[i].package_name@ == packages.cross_compile_toolchains@[i].package_name@
                &&& installs@[i].script_name@ == packages.cross_compile_toolchains@[i].script@
                &&& installs@[i].script_path@ == config.scripts_path.root@ + config.scripts_path.build_temp_toolchains@
                &&& installs@[i].package_source_path@ == config.path.install_path@ + config.path.package_source@
                &&& installs@[i].package_target_path@ == config.path.install_path@ + config.path.package_build@
            },
            forall|i: int| 0 <= i < packages.cross_compile_packages@.len() ==> {
                &&& (#[trigger] installs@[packages.cross_compile_toolchains@.len() + i]).dir_name@ == packages.cross_compile_packages@[i].package_name@
                &&& installs@[packages.cross_compile_toolchains@.len() + i].package_name@ == packages.cross_compile_packages@[i].package_name@
                &&& installs@[packages.cross_compile_toolchains@.len() + i].script_name@ == packages.cross_compile_packages@[i].script@
                &&& installs@[packages.cross_compile_toolchains@.len() + i].script_path@ == config.scripts_path.root@ + config.scripts_path.build_temp_toolchains@
                &&& installs@[packages.cross_compile_toolchains@.len() + i].package_source_path@ == config.path.install_path@ + config.path.package_source@
                &&& installs@[packages.cross_compile_toolchains@.len() + i].package_target_path@ == config.path.install_path@ + config.path.package_build@
            },
    {
        let script_path = concat2(config.scripts_path.root.as_str(), config.scripts_path.build_temp_toolchains.as_str());
        let source = concat2(config.path.install_path.as_str(), config.path.package_source.as_str());
        let target = concat2(config.path.install_path.as_str(), config.path.package_build.as_str());
        let mut installs: Vec<InstallInfo> = Vec::new();
        push_temp_installs(&mut installs, &packages.cross_compile_toolchains, script_path.as_str(), source.as_str(), target.as_str());
        assert forall|i: int| 0 <= i < packages.cross_compile_toolchains@.len() implies #[trigger] installs@[i]@
            == spec_temp_info(packages.cross_compile_toolchains@[i], script_path@, source@, target@) by {
            assert(installs@[0 + i]@ == spec_temp_info(packages.cross_compile_toolchains@[i], script_path@, source@, target@));
        }
        push_temp_installs(&mut installs, &packages.cross_compile_packages, script_path.as_str(), source.as_str(), target.as_str());
        assert forall|i: int| 0 <= i < packages.cross_compile_toolchains@.len() implies {
                &&& (#[trigger] installs@[i]).dir_name@ == packages.cross_compile_toolchains@[i].package_name@
                &&& installs@[i].package_name@ == packages.cross_compile_toolchains@[i].package_name@
                &&& installs@[i].script_name@ == packages.cross_compile_toolchains@[i].script@
                &&& installs@[i].script_path@ == config.scripts_path.root@ + config.scripts_path.build_temp_toolchains@
                &&& installs@[i].package_source_path@ == config.path.install_path@ + config.path.package_source@
                &&& installs@[i].package_target_path@ == config.path.install_path@ + config.path.package_build@
            } by {
            assert(installs@[i]@ == spec_temp_info(packages.cross_compile_toolchains@[i], config.scripts_path.root@ + config.scripts_path.build_temp_toolchains@, config.path.install_path@ + config.path.package_source@, config.path.install_path@ + config.path.package_build@));
        }
        assert forall|i: int| 0 <= i < packages.cross_compile_packages@.len() implies {
                &&& (#[trigger] installs@[packages.cross_compile_toolchains@.len() + i]).dir_name@ == packages.cross_compile_packages@[i].package_name@
                &&& installs@[packages.cross_compile_toolchains@.len() + i].package_name@ == packages.cross_compile_packages@[i].package_name@
                &&& installs@[packages.cross_compile_toolchains@.len() + i].script_name@ == packages.cross_compile_packages@[i].script@
                &&& installs@[packages.cross_compile_toolchains@.len() + i].script_path@ == config.scripts_path.root@ + config.scripts_path.build_temp_toolchains@
                &&& installs@[packages.cross_compile_toolchains@.len() + i].package_source_path@ == config.path.install_path@ + config.path.package_source@
                &&& installs@[packages.cross_compile_toolchains@.len() + i].package_target_path@ == config.path.install_path@ + config.path.package_build@
            } by {
            assert(installs@[packages.cross_compile_toolchains@.len() + i]@ == spec_temp_info(packages.cross_compile_packages@[i], config.scripts_path.root@ + config.scripts_path.build_temp_toolchains@, config.path.install_path@ + config.path.package_source@, config.path.install_path@ + config.path.package_build@));
        }
        installs
    }

    /// The task's result once `run`, a run of the installs of
    /// `before_chroot_install_packages`, is over: success, or the error
    /// naming the package whose install failed.
    pub fn install_result(&self, installs: &Vec<InstallInfo>, run: &StepRun) -> (res: Result<(), String>)
        ensures
            unit_result_view(res) == spec_install_run_result(installs@, run.done as nat, run.failed),
    {
        install_run_result(installs, run)
    }

    /// Reserved for checking what has been installed of `package_name`; it
    /// inspects nothing and has no effect.
    pub fn check_data(&self, package_name: String) {
        let _ = package_name;
    }

    /// The task's steps: each install of `before_chroot_install_packages`,
    /// with build scripts run on the host.
    pub fn steps(&self, config: &BaseConfig, packages: &CrossCompilePackages) -> (steps: Vec<TaskStep>)
        ensures
            steps@.len() == packages.cross_compile_toolchains@.len() + packages.cross_compile_packages@.len(),
            forall|i: int| 0 <= i < packages.cross_compile_toolchains@.len() ==> is_install(
                #[trigger] steps@[i],
                spec_temp_info(
                    packages.cross_compile_toolchains@[i],
                    config.scripts_path.root@ + config.scripts_path.build_temp_toolchains@,
                    config.path.install_path@ + config.path.package_source@,
                    config.path.install_path@ + config.path.package_build@,
                ),
                false,
            ),
            forall|i: int| 0 <= i < packages.cross_compile_packages@.len() ==> is_install(
                #[trigger] steps@[packages.cross_compile_toolchains@.len() + i],
                spec_temp_info(
                    packages.cross_compile_packages@[i],
                    config.scripts_path.root@ + config.scripts_path.build_temp_toolchains@,
                    config.path.install_path@ + config.path.package_source@,
                    config.path.install_path@ + config.path.package_build@,
                ),
                false,
            ),
    {
        let installs = self.before_chroot_install_packages(config, packages);
        let steps = install_steps(&installs, false);
        assert forall|i: int| 0 <= i < packages.cross_compile_packages@.len() implies is_install(
            #[trigger] steps@[packages.cross_compile_toolchains@.len() + i],
            spec_temp_info(
                packages.cross_compile_packages@[i],
                config.scripts_path.root@ + config.scripts_path.build_temp_toolchains@,
                config.path.install_path@ + config.path.package_source@,
                config.path.install_path@ + config.path.package_build@,
            ),
            false,
        ) by {
            assert(installs@[packages.cross_compile_toolchains@.len() + i]@ == spec_temp_info(
                packages.cross_compile_packages@[i],
                config.scripts_path.root@ + config.scripts_path.build_temp_toolchains@,
                config.path.install_path@ + config.path.package_source@,
                config.path.install_path@ + config.path.package_build@,
            ));
        }
        steps
    }
}

/// Prepares the new root after entering it: creates its directories and
/// files.
pub struct AfterChroot {}

impl AfterChroot {
    /// Runs `create_dirs.sh`, then `create_files.sh`, inside the new root
    /// from the chroot script directory.
    pub fn steps(&self, config: &BaseConfig) -> (steps: Vec<TaskStep>)
        ensures
            steps@.len() == 2,
            is_chroot_script(steps@[0], "create_dirs.sh"@,
                spec_collect(seq![config.scripts_path.root@, config.scripts_path.chroot@])),
            is_chroot_script(steps@[1], "create_files.sh"@,
                spec_collect(seq![config.scripts_path.root@, config.scripts_path.chroot@])),
    {
        let dir = collect2(config.scripts_path.root.as_str(), config.scripts_path.chroot.as_str());
        let mut steps: Vec<TaskStep> = Vec::new();
        steps.push(TaskStep::Script(chroot_script_command("create_dirs.sh", dir.as_str())));
        steps.push(TaskStep::Script(chroot_script_command("create_files.sh", dir.as_str())));
        steps
    }
}

/// The install request for a temporary package built inside the new root.
pub open spec fn spec_after_chroot_info(config: BaseConfig, p: CrossCompilePackagesInfo) -> InstallInfoView {
    spec_temp_info(
        p,
        config.scripts_path.root@ + config.scripts_path.build_temp_toolchains@,
        config.path.package_source@,
        config.path.package_build@,
    )
}

/// Installs the remaining temporary tools inside the new root.
pub struct AfterChrootInstall {}

impl AfterChrootInstall {
    /// The installs to run, in order: one per package built after entering
    /// the new root, with archives taken from, and unpacked into, the source
    /// and build directories as seen from inside it.
    pub fn after_chroot_install_packages(&self, config: &BaseConfig, packages: &CrossCompilePackages) -> (installs: Vec<InstallInfo>)
        ensures
            installs@.len() == packages.after_chroot_packages@.len(),
            forall|i: int| 0 <= i < packages.after_chroot_packages@.len() ==> #[trigger] installs@[i]@
                == spec_after_chroot_info(*config, packages.after_chroot_packages@[i]),
            forall|i: int| 0 <= i < packages.after_chroot_packages@.len() ==> {
                &&& (#[trigger] installs@[i]).dir_name@ == packages.after_chroot_packages@[i].package_name@
                &&& installs@[i].package_name@ == packages.after_chroot_packages@[i].package_name@
                &&& installs@[i].script_name@ == packages.after_chroot_packages@[i].script@
                &&& installs@[i].script_path@ == config.scripts_path.root@ + config.scripts_path.build_temp_toolchains@
                &&& installs@[i].package_source_path@ == config.path.package_source@
                &&& installs@[i].package_target_path@ == config.path.package_build@
            },
    {
        let script_path = concat2(config.scripts_path.root.as_str(), config.scripts_path.build_temp_toolchains.as_str());
        let mut installs: Vec<InstallInfo> = Vec::new();
        push_temp_installs(
            &mut installs,
            &packages.after_chroot_packages,
            script_path.as_str(),
            config.path.package_source.as_str(),
            config.path.package_build.as_str(),
        );
        assert forall|i: int| 0 <= i < packages.after_chroot_packages@.len() implies #[trigger] installs@[i]@
            == spec_after_chroot_info(*config, packages.after_chroot_packages@[i]) by {
            assert(installs@[0 + i]@ == spec_after_chroot_info(*config, packages.after_chroot_packages@[i]));
        }
        assert forall|i: int| 0 <= i < packages.after_chroot_packages@.len() implies {
                &&& (#[trigger] installs@[i]).dir_name@ == packages.after_chroot_packages@[i].package_name@
                &&& installs@[i].package_name@ == packages.after_chroot_packages@[i].package_name@
                &&& installs@[i].script_name@ == packages.after_chroot_packages@[i].script@
                &&& installs@[i].script_path@ == config.scripts_path.root@ + config.scripts_path.build_temp_toolchains@
                &&& installs@[i].package_source_path@ == config.path.package_source@
                &&& installs@[i].package_target_path@ == config.path.package_build@
            } by {
            assert(installs@[i]@ == spec_after_chroot_info(*config, packages.after_chroot_packages@[i]));
        }
        installs
    }

    /// The task's result once `run`, a run of the installs of
    /// `after_chroot_install_packages`, is over: success, or the error
    /// naming the package whose install failed.
    pub fn install_result(&self, installs: &Vec<InstallInfo>, run: &StepRun) -> (res: Result<(), String>)
        ensures
            unit_result_view(res) == spec_install_run_result(installs@, run.done as nat, run.failed),
    {
        install_run_result(installs, run)
    }

    /// The task's steps: each install of `after_chroot_install_packages`,
    /// with build scripts run inside the new root.
    pub fn steps(&self, config: &BaseConfig, packages: &CrossCompilePackages) -> (steps: Vec<TaskStep>)
        ensures
            steps@.len() == packages.after_chroot_packages@.len(),
            forall|i: int| 0 <= i < packages.after_chroot_packages@.len() ==> is_install(
                #[trigger] steps@[i],
                spec_after_chroot_info(*config, packages.after_chroot_packages@[i]),
                true,
            ),
    {
        let installs = self.after_chroot_install_packages(config, packages);
        install_steps(&installs, true)
    }
}

/// Removes the temporary files of the tool chain build.
pub struct CleanUpAndSaveTempSystem {}

impl CleanUpAndSaveTempSystem {
    /// Runs `remove_temp_file.sh` inside the new root from the chroot script
    /// directory.
    pub fn steps(&self, config: &BaseConfig) -> (steps: Vec<TaskStep>)
        ensures
            steps@.len() == 1,
            is_chroot_script(steps@[0], "remove_temp_file.sh"@,
                spec_collect(seq![config.scripts_path.root@, config.scripts_path.chroot@])),
    {
        let dir = collect2(config.scripts_path.root.as_str(), config.scripts_path.chroot.as_str());
        let mut steps: Vec<TaskStep> = Vec::new();
        steps.push(TaskStep::Script(chroot_script_command("remove_temp_file.sh", dir.as_str())));
        steps
    }
}

/// A run of one install step per request fails exactly when one of the
/// first reports is a failure, and its result then names the package of
/// the first failing install, every earlier install having succeeded;
/// otherwise it succeeds.
pub proof fn lemma_install_run_names_first_failure(installs: Seq<InstallInfo>, results: Seq<bool>)
    ensures
        ({
            let st = spec_replay(installs.len(), results);
            let r = spec_install_run_result(installs, st.0, st.1);
            &&& r is Err <==> exists|k: int| 0 <= k < results.len() && k < installs.len() && !#[trigger] results[k]
            &&& r is Err ==> {
                &&& st.0 < installs.len()
                &&& !results[st.0 as int]
                &&& (forall|j: int| 0 <= j < st.0 ==> #[trigger] results[j])
                &&& r == Err::<(), Seq<char>>("Failed install package "@ + installs[st.0 as int].package_name@)
            }
        }),
{
    lemma_run_stops_at_first_failure(installs.len(), results);
}

/// A temporary tool built after entering the new root takes its build
/// script from the temporary tool chain script directory, its archive from
/// `path.package_source` and unpacks into `path.package_build` as
/// configured; its archive and unpacked directory are both found by the
/// package's `package_name`.
pub proof fn lemma_after_chroot_install_request(config: BaseConfig, p: CrossCompilePackagesInfo)
    ensures
        spec_after_chroot_info(config, p).script_path
            == config.scripts_path.root@ + config.scripts_path.build_temp_toolchains@,
        spec_after_chroot_info(config, p).package_source_path == config.path.package_source@,
        spec_after_chroot_info(config, p).package_target_path == config.path.package_build@,
        spec_after_chroot_info(config, p).dir_name == p.package_name@,
        spec_after_chroot_info(config, p).package_name == p.package_name@,
        spec_after_chroot_info(config, p).script_name == p.script@,
{
}

/// A temporary tool request carries the package's `package_name` as both
/// archive and directory prefix, its `script` as script name, and the
/// directories it is given unchanged.
pub proof fn lemma_temp_install_request(
    p: CrossCompilePackagesInfo,
    script_path: Seq<char>,
    source: Seq<char>,
    target: Seq<char>,
)
    ensures
        spec_temp_info(p, script_path, source, target).dir_name == p.package_name@,
        spec_temp_info(p, script_path, source, target).package_name == p.package_name@,
        spec_temp_info(p, script_path, source, target).script_name == p.script@,
        spec_temp_info(p, script_path, source, target).script_path == script_path,
        spec_temp_info(p, script_path, source, target).package_source_path == source,
        spec_temp_info(p, script_path, source, target).package_target_path == target,
{
}

/// The tool chain built before entering the new root uses the same source
/// and build directories as the tools built inside it, seen from the host:
/// under the install path.
pub proof fn lemma_host_installs_are_under_install_path(
    config: BaseConfig,
    p: CrossCompilePackagesInfo,
    q: CrossCompilePackagesInfo,
)
    ensures
        spec_temp_info(
            p,
            config.scripts_path.root@ + config.scripts_path.build_temp_toolchains@,
            config.path.install_path@ + config.path.package_source@,
            config.path.install_path@ + config.path.package_build@,
        ).package_source_path == config.path.install_path@ + spec_after_chroot_info(config, q).package_source_path,
        spec_temp_info(
            p,
            config.scripts_path.root@ + config.scripts_path.build_temp_toolchains@,
            config.path.install_path@ + config.path.package_source@,
            config.path.install_path@ + config.path.package_build@,
        ).package_target_path == config.path.install_path@ + spec_after_chroot_info(config, q).package_target_path,
{
}

} // verus!
