use vstd::prelude::*;
use crate::build_temp_toolchain::spec_after_chroot_info;
use crate::config::{BaseConfig, BasePackages, BasePackagesInfo, CrossCompilePackagesInfo};
use crate::install::{make_install_info, spec_install_info, InstallInfo, InstallInfoView};
use crate::paths::concat2;
use crate::plan::{base_system_plan, plan_view, spec_base_system_plan, PlannedTask};
use crate::scripts::chroot_script_command;
use crate::steps::{install_steps, is_chroot_script, is_install, TaskStep};

verus! {

/// Builds the final system's packages, strips debug symbols and cleans up,
/// as one task graph of its own.
pub struct BuildBaseSystem {}

impl BuildBaseSystem {
    /// The task graph it runs: installing the packages, then removing debug
    /// symbols, then cleaning up.
    pub fn plan(&self) -> (plan: Vec<PlannedTask>)
        ensures
            plan_view(plan@) == spec_base_system_plan(),
    {
        base_system_plan()
    }
}

/// The install request for a package of the final system.
pub open spec fn spec_base_info(config: BaseConfig, p: BasePackagesInfo) -> InstallInfoView {
    spec_install_info(
        p.name@,
        p.package_name@,
        p.script@,
        config.scripts_path.root@ + config.scripts_path.build_base_packages@,
        config.path.package_source@,
        config.path.package_build@,
    )
}

/// Installs the packages of the final system inside the new root.
pub struct InstallBasicSystemSoftware {}

impl InstallBasicSystemSoftware {
    /// The installs to run, one per package in order.
    pub fn installs(&self, config: &BaseConfig, packages: &BasePackages) -> (installs: Vec<InstallInfo>)
        ensures
            installs@.len() == packages.base_packages@.len(),
            forall|i: int| 0 <= i < packages.base_packages@.len() ==> #[trigger] installs@[i]@
                == spec_base_info(*config, packages.base_packages@[i]),
            forall|i: int| 0 <= i < packages.base_packages@.len() ==> {
                &&& (#[trigger] installs@[i]).dir_name@ == packages.base_packages@[i].name@
                &&& installs@[i].package_name@ == packages.base_packages@[i].package_name@
                &&& installs@[i].script_name@ == packages.base_packages@[i].script@
                &&& installs@[i].script_path@ == config.scripts_path.root@ + config.scripts_path.build_base_packages@
                &&& installs@[i].package_source_path@ == config.path.package_source@
                &&& installs@[i].package_target_path@ == config.path.package_build@
            },
    {
        let script_path = concat2(config.scripts_path.root.as_str(), config.scripts_path.build_base_packages.as_str());
        let list = &packages.base_packages;
        let mut installs: Vec<InstallInfo> = Vec::new();
        let mut i: usize = 0;
        while i < list.len()
            invariant
                i <= list@.len(),
                list == &packages.base_packages,
                script_path@ == config.scripts_path.root@ + config.scripts_path.build_base_packages@,
                installs@.len() == i,
                forall|j: int| 0 <= j < i ==> #[trigger] installs@[j]@ == spec_base_info(*config, list@[j]),
            decreases list@.len() - i,
        {
            let p = &list[i];
            installs.push(make_install_info(
                p.name.as_str(),
                p.package_name.as_str(),
                p.script.as_str(),
                script_path.as_str(),
                config.path.package_source.as_str(),
                config.path.package_build.as_str(),
            ));
            i = i + 1;
        }
        assert forall|i: int| 0 <= i < packages.base_packages@.len() implies {
                &&& (#[trigger] installs@[i]).dir_name@ == packages.base_packages@[i].name@
                &&& installs@[i].package_name@ == packages.base_packages@[i].package_name@
                &&& installs@[i].script_name@ == packages.base_packages@[i].script@
                &&& installs@[i].script_path@ == config.scripts_path.root@ + config.scripts_path.build_base_packages@
                &&& installs@[i].package_source_path@ == config.path.package_source@
                &&& installs@[i].package_target_path@ == config.path.package_build@
            } by {
            assert(installs@[i]@ == spec_base_info(*config, packages.base_packages@[i]));
        }
        installs
    }

    /// The task's steps: each install, with build scripts run inside the
    /// new root.
    pub fn steps(&self, config: &BaseConfig, packages: &BasePackages) -> (steps: Vec<TaskStep>)
        ensures
            steps@.len() == packages.base_packages@.len(),
            forall|i: int| 0 <= i < packages.base_packages@.len() ==> is_install(
                #[trigger] steps@[i],
                spec_base_info(*config, packages.base_packages@[i]),
                true,
            ),
    {
        let installs = self.installs(config, packages);
        install_steps(&installs, true)
    }
}

/// Strips debug symbols from the new system.
pub struct RemoveDebugSymbol {}

impl RemoveDebugSymbol {
    /// Runs `remove_debug_symbol.sh` inside the new root from the clean-up
    /// script directory.
    pub fn steps(&self, config: &BaseConfig) -> (steps: Vec<TaskStep>)
        ensures
            steps@.len() == 1,
            is_chroot_script(steps@[0], "remove_debug_symbol.sh"@,
                config.scripts_path.root@ + config.scripts_path.clean@),
    {
        let dir = concat2(config.scripts_path.root.as_str(), config.scripts_path.clean.as_str());
        let mut steps: Vec<TaskStep> = Vec::new();
        steps.push(TaskStep::Script(chroot_script_command("remove_debug_symbol.sh", dir.as_str())));
        steps
    }
}

/// Removes leftovers from the new system.
pub struct CleanUpSystem {}

impl CleanUpSystem {
    /// Runs `remove_system_trash.sh` inside the new root from the clean-up
    /// script directory.
    pub fn steps(&self, config: &BaseConfig) -> (steps: Vec<TaskStep>)
        ensures
            steps@.len() == 1,
            is_chroot_script(steps@[0], "remove_system_trash.sh"@,
                config.scripts_path.root@ + config.scripts_path.clean@),
    {
        let dir = concat2(config.scripts_path.root.as_str(), config.scripts_path.clean.as_str());
        let mut steps: Vec<TaskStep> = Vec::new();
        steps.push(TaskStep::Script(chroot_script_command("remove_system_trash.sh", dir.as_str())));
        steps
    }
}

/// A package of the final system is installed from inside the new root:
/// its archive is looked for in `path.package_source` and unpacked into
/// `path.package_build` as configured (not under the install path), its
/// build script comes from the base package script directory, and its
/// unpacked directory is found by the package's `name`.
pub proof fn lemma_base_install_request(config: BaseConfig, p: BasePackagesInfo)
    ensures
        spec_base_info(config, p).package_source_path == config.path.package_source@,
        spec_base_info(config, p).package_target_path == config.path.package_build@,
        spec_base_info(config, p).script_path == config.scripts_path.root@ + config.scripts_path.build_base_packages@,
        spec_base_info(config, p).dir_name == p.name@,
        spec_base_info(config, p).package_name == p.package_name@,
        spec_base_info(config, p).script_name == p.script@,
{
}

/// Final-system packages and the temporary tools built after entering the
/// new root use the same source and build directories, both as seen from
/// inside the new root; only their script directories differ.
pub proof fn lemma_inside_root_installs_share_directories(
    config: BaseConfig,
    p: BasePackagesInfo,
    q: CrossCompilePackagesInfo,
)
    ensures
        spec_base_info(config, p).package_source_path == spec_after_chroot_info(config, q).package_source_path,
        spec_base_info(config, p).package_target_path == spec_after_chroot_info(config, q).package_target_path,
{
}

} // verus!
