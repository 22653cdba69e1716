use vstd::prelude::*;
use crate::config::BaseConfig;
use crate::paths::{collect3, spec_collect};
use crate::scripts::config_script_command;
use crate::steps::{is_config_script, TaskStep};

verus! {

/// The path of the configuration script `name`: the system configuration
/// script directory under the script root.
pub open spec fn spec_config_script_path(config: BaseConfig, name: Seq<char>) -> Seq<char> {
    spec_collect(seq![config.scripts_path.root@, config.scripts_path.sysconfig@, name])
}

/// The single step of a configuration task: run its script.
fn config_steps(config: &BaseConfig, name: &str) -> (steps: Vec<TaskStep>)
    ensures
        steps@.len() == 1,
        is_config_script(steps@[0], spec_config_script_path(*config, name@)),
{
    let path = collect3(config.scripts_path.root.as_str(), config.scripts_path.sysconfig.as_str(), name);
    let mut steps: Vec<TaskStep> = Vec::new();
    steps.push(TaskStep::Script(config_script_command(path.as_str())));
    steps
}

/// Writes the new system's `/etc/fstab`.
pub struct Fstab {}

impl Fstab {
    /// Runs `config_fstab.sh` from the system configuration script directory.
    pub fn steps(&self, config: &BaseConfig) -> (steps: Vec<TaskStep>)
        ensures
            steps@.len() == 1,
            is_config_script(steps@[0], spec_config_script_path(*config, "config_fstab.sh"@)),
    {
        config_steps(config, "config_fstab.sh")
    }
}

/// Writes the new system's `/etc/inputrc`.
pub struct Inputrc {}

impl Inputrc {
    /// Runs `config_inputrc.sh` from the system configuration script directory.
    pub fn steps(&self, config: &BaseConfig) -> (steps: Vec<TaskStep>)
        ensures
            steps@.len() == 1,
            is_config_script(steps@[0], spec_config_script_path(*config, "config_inputrc.sh"@)),
    {
        config_steps(config, "config_inputrc.sh")
    }
}

/// Configures the new system's network.
pub struct Network {}

impl Network {
    /// Runs `config_network.sh` from the system configuration script directory.
    pub fn steps(&self, config: &BaseConfig) -> (steps: Vec<TaskStep>)
        ensures
            steps@.len() == 1,
            is_config_script(steps@[0], spec_config_script_path(*config, "config_network.sh"@)),
    {
        config_steps(config, "config_network.sh")
    }
}

/// Writes the new system's shell profile.
pub struct Profile {}

impl Profile {
    /// Runs `config_profile.sh` from the system configuration script directory.
    pub fn steps(&self, config: &BaseConfig) -> (steps: Vec<TaskStep>)
        ensures
            steps@.len() == 1,
            is_config_script(steps@[0], spec_config_script_path(*config, "config_profile.sh"@)),
    {
        config_steps(config, "config_profile.sh")
    }
}

/// Writes the new system's `rc.site`.
pub struct RcSite {}

impl RcSite {
    /// Runs `config_rc_site.sh` from the system configuration script directory.
    pub fn steps(&self, config: &BaseConfig) -> (steps: Vec<TaskStep>)
        ensures
            steps@.len() == 1,
            is_config_script(steps@[0], spec_config_script_path(*config, "config_rc_site.sh"@)),
    {
        config_steps(config, "config_rc_site.sh")
    }
}

/// Writes the new system's list of login shells.
pub struct Shell {}

impl Shell {
    /// Runs `config_shell.sh` from the system configuration script directory.
    pub fn steps(&self, config: &BaseConfig) -> (steps: Vec<TaskStep>)
        ensures
            steps@.len() == 1,
            is_config_script(steps@[0], spec_config_script_path(*config, "config_shell.sh"@)),
    {
        config_steps(config, "config_shell.sh")
    }
}

/// Configures the new system's init.
pub struct Sysvinit {}

impl Sysvinit {
    /// Runs `config_sysvinit.sh` from the system configuration script directory.
    pub fn steps(&self, config: &BaseConfig) -> (steps: Vec<TaskStep>)
        ensures
            steps@.len() == 1,
            is_config_script(steps@[0], spec_config_script_path(*config, "config_sysvinit.sh"@)),
    {
        config_steps(config, "config_sysvinit.sh")
    }
}

/// Configures the new system's clock.
pub struct Time {}

impl Time {
    /// Runs `config_time.sh` from the system configuration script directory.
    pub fn steps(&self, config: &BaseConfig) -> (steps: Vec<TaskStep>)
        ensures
            steps@.len() == 1,
            is_config_script(steps@[0], spec_config_script_path(*config, "config_time.sh"@)),
    {
        config_steps(config, "config_time.sh")
    }
}

/// Installs and configures the boot loader.
pub struct ConfigGrub {}

impl ConfigGrub {
    /// Runs `config_grub.sh` from the system configuration script directory.
    pub fn steps(&self, config: &BaseConfig) -> (steps: Vec<TaskStep>)
        ensures
            steps@.len() == 1,
            is_config_script(steps@[0], spec_config_script_path(*config, "config_grub.sh"@)),
    {
        config_steps(config, "config_grub.sh")
    }
}

/// Installs the kernel of the new system; it has no steps of its own.
pub struct InstallKernel {}

impl InstallKernel {
    /// The task's steps: none.
    pub fn steps(&self, config: &BaseConfig) -> (steps: Vec<TaskStep>)
        ensures
            steps@.len() == 0,
    {
        let _ = config;
        Vec::new()
    }
}

} // verus!
