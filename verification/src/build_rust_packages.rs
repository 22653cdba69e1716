use vstd::prelude::*;
use crate::config::{BaseConfig, RustSupportPackageInfo, RustSupportPackages};
use crate::install::{make_install_info, spec_install_info, InstallInfo, InstallInfoView};
use crate::paths::concat2;
use crate::steps::{install_steps, is_install, TaskStep};

verus! {

/// The install request for a package of the system's Rust support.
pub open spec fn spec_rust_info(config: BaseConfig, p: RustSupportPackageInfo) -> InstallInfoView {
    spec_install_info(
        p.name@,
        p.package_name@,
        p.script@,
        config.scripts_path.root@ + config.scripts_path.build_rust_support_packages@,
        config.path.package_source@,
        config.path.package_build@,
    )
}

/// Installs the packages of the system's Rust support and its kernel inside
/// the new root.
pub struct InstallRustSupportPackages {}

impl InstallRustSupportPackages {
    /// The installs to run, one per package in order.
    pub fn installs(&self, config: &BaseConfig, packages: &RustSupportPackages) -> (installs: Vec<InstallInfo>)
        ensures
            installs@.len() == packages.rust_support_packages@.len(),
            forall|i: int| 0 <= i < packages.rust_support_packages@.len() ==> #[trigger] installs@[i]@
                == spec_rust_info(*config, packages.rust_support_packages@[i]),
            forall|i: int| 0 <= i < packages.rust_support_packages@.len() ==> {
                &&& (#[trigger] installs@[i]).dir_name@ == packages.rust_support_packages@[i].name@
                &&& installs@[i].package_name@ == packages.rust_support_packages@[i].package_name@
                &&& installs@[i].script_name@ == packages.rust_support_packages@[i].script@
                &&& installs@[i].script_path@ == config.scripts_path.root@ + config.scripts_path.build_rust_support_packages@
                &&& installs@[i].package_source_path@ == config.path.package_source@
                &&& installs@[i].package_target_path@ == config.path.package_build@
            },
    {
        let script_path = concat2(
            config.scripts_path.root.as_str(),
            config.scripts_path.build_rust_support_packages.as_str(),
        );
        let list = &packages.rust_support_packages;
        let mut installs: Vec<InstallInfo> = Vec::new();
        let mut i: usize = 0;
        while i < list.len()
            invariant
                i <= list@.len(),
                list == &packages.rust_support_packages,
                script_path@ == config.scripts_path.root@ + config.scripts_path.build_rust_support_packages@,
                installs@.len() == i,
                forall|j: int| 0 <= j < i ==> #[trigger] installs@[j]@ == spec_rust_info(*config, list@[j]),
            decreases list@.len() - i,
        {
            let p = &list[i];
            installs.push(make_install_info(
                p.name.as_str(),
                p.package_name.as_str(),
                p.script.as_str(),
                script_path.as_str(),
                config.path.package_source.as_str(),
                config.path.package_build.as_str(),
            ));
            i = i + 1;
        }
        assert forall|i: int| 0 <= i < packages.rust_support_packages@.len() implies {
                &&& (#[trigger] installs@[i]).dir_name@ == packages.rust_support_packages@[i].name@
                &&& installs@[i].package_name@ == packages.rust_support_packages@[i].package_name@
                &&& installs@[i].script_name@ == packages.rust_support_packages@[i].script@
                &&& installs@[i].script_path@ == config.scripts_path.root@ + config.scripts_path.build_rust_support_packages@
                &&& installs@[i].package_source_path@ == config.path.package_source@
                &&& installs@[i].package_target_path@ == config.path.package_build@
            } by {
            assert(installs@[i]@ == spec_rust_info(*config, packages.rust_support_packages@[i]));
        }
        installs
    }

    /// The task's steps: each install, with build scripts run inside the
    /// new root.
    pub fn steps(&self, config: &BaseConfig, packages: &RustSupportPackages) -> (steps: Vec<TaskStep>)
        ensures
            steps@.len() == packages.rust_support_packages@.len(),
            forall|i: int| 0 <= i < packages.rust_support_packages@.len() ==> is_install(
                #[trigger] steps@[i],
                spec_rust_info(*config, packages.rust_support_packages@[i]),
                true,
            ),
    {
        let installs = self.installs(config, packages);
        install_steps(&installs, true)
    }
}

/// A Rust support package is installed from inside the new root: its
/// archive is looked for in `path.package_source` and unpacked into
/// `path.package_build` as configured, its build script comes from the Rust
/// support script directory, and its unpacked directory is found by the
/// package's `name`.
pub proof fn lemma_rust_install_request(config: BaseConfig, p: RustSupportPackageInfo)
    ensures
        spec_rust_info(config, p).package_source_path == config.path.package_source@,
        spec_rust_info(config, p).package_target_path == config.path.package_build@,
        spec_rust_info(config, p).script_path
            == config.scripts_path.root@ + config.scripts_path.build_rust_support_packages@,
        spec_rust_info(config, p).dir_name == p.name@,
        spec_rust_info(config, p).package_name == p.package_name@,
        spec_rust_info(config, p).script_name == p.script@,
{
}

} // verus!
