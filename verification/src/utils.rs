use vstd::prelude::*;
use vstd::string::*;
use crate::config::BaseConfig;
use crate::paths::{collect3, spec_collect};
use crate::scripts::host_script_command;
use crate::steps::{is_host_script, TaskStep};

verus! {

/// Enters the new root: hands its directories to the build user, mounts the
/// virtual file systems, changes root to the install path and moves to `/`.
pub struct EnterChroot {}

impl EnterChroot {
    /// The four steps, in order.
    pub fn steps(&self, config: &BaseConfig) -> (steps: Vec<TaskStep>)
        ensures
            steps@.len() == 4,
            is_host_script(steps@[0], spec_collect(
                seq![config.scripts_path.root@, config.scripts_path.chroot@, "target_path_chown.sh"@])),
            is_host_script(steps@[1], spec_collect(
                seq![config.scripts_path.root@, config.scripts_path.chroot@, "mount_vfsys.sh"@])),
            steps@[2] matches TaskStep::Chroot { root } && root@ == config.path.install_path@,
            steps@[3] matches TaskStep::SetCurrentDir { dir } && dir@ == "/"@,
    {
        let chown = collect3(config.scripts_path.root.as_str(), config.scripts_path.chroot.as_str(), "target_path_chown.sh");
        let mount = collect3(config.scripts_path.root.as_str(), config.scripts_path.chroot.as_str(), "mount_vfsys.sh");
        let mut steps: Vec<TaskStep> = Vec::new();
        steps.push(TaskStep::Script(host_script_command(chown.as_str())));
        steps.push(TaskStep::Script(host_script_command(mount.as_str())));
        steps.push(TaskStep::Chroot { root: config.path.install_path.clone() });
        steps.push(TaskStep::SetCurrentDir { dir: String::from_str("/") });
        steps
    }
}

/// Configures the environment inside the new root; it has no steps of its own.
pub struct ConfigChrootEnv {}

impl ConfigChrootEnv {
    /// The task's steps: none.
    pub fn steps(&self) -> (steps: Vec<TaskStep>)
        ensures
            steps@.len() == 0,
    {
        Vec::new()
    }
}

} // verus!
