use vstd::prelude::*;
use vstd::string::*;

verus! {

/// A shell script to run with `/bin/bash -e`.
pub struct ScriptCommand {
    /// The script handed to the shell.
    pub script: String,
    /// The directory to run it in (made absolute first); the current one when `None`.
    pub dir: Option<String>,
    /// Whether the script starts from an empty environment.
    pub clear_env: bool,
    /// Environment variables set for the script, in order.
    pub envs: Vec<(String, String)>,
    /// File that receives the script's standard output and error.
    pub log_file: Option<String>,
    /// Whether the script only counts as successful when it exits with status 0;
    /// otherwise starting it is enough.
    pub check_status: bool,
}

/// The environment variables as character sequences.
pub open spec fn envs_view(envs: Seq<(String, String)>) -> Seq<(Seq<char>, Seq<char>)> {
    envs.map_values(|e: (String, String)| (e.0@, e.1@))
}

/// Optional text as a character sequence.
pub open spec fn opt_view(o: Option<String>) -> Option<Seq<char>> {
    match o {
        Some(s) => Some(s@),
        None => None,
    }
}

/// The environment of scripts run inside the new root.
pub open spec fn spec_chroot_envs() -> Seq<(Seq<char>, Seq<char>)> {
    seq![
        ("PATH"@, "/usr/bin:/usr/sbin:/root/.cargo/bin"@),
        ("HOME"@, "/root"@),
        ("TERM"@, "$TERM"@),
        ("MAKEFLAGS"@, "-j8"@),
        ("NINJAJOBS"@, "8"@),
    ]
}

/// The variables added for scripts that build on the host.
pub open spec fn spec_build_envs() -> Seq<(Seq<char>, Seq<char>)> {
    seq![("MAKEFLAGS"@, "-j8"@)]
}

/// The environment of scripts that configure the new system.
pub open spec fn spec_config_envs() -> Seq<(Seq<char>, Seq<char>)> {
    seq![("PATH"@, "/usr/bin:/usr/sbin"@), ("HOME"@, "/root"@), ("TERM"@, "$TERM"@)]
}

fn env_pair(name: &str, value: &str) -> (res: (String, String))
    ensures
        res.0@ == name@,
        res.1@ == value@,
{
    (String::from_str(name), String::from_str(value))
}

/// A script run inside the new root from the directory `dir`, with a clean
/// environment, its output going to `/root/log.log`.
pub fn chroot_script_command(script: &str, dir: &str) -> (cmd: ScriptCommand)
    ensures
        cmd.script@ == script@,
        opt_view(cmd.dir) == Some(dir@),
        cmd.clear_env,
        envs_view(cmd.envs@) == spec_chroot_envs(),
        opt_view(cmd.log_file) == Some("/root/log.log"@),
        cmd.check_status,
{
    let mut envs: Vec<(String, String)> = Vec::new();
    envs.push(env_pair("PATH", "/usr/bin:/usr/sbin:/root/.cargo/bin"));
    envs.push(env_pair("HOME", "/root"));
    envs.push(env_pair("TERM", "$TERM"));
    envs.push(env_pair("MAKEFLAGS", "-j8"));
    envs.push(env_pair("NINJAJOBS", "8"));
    assert(envs_view(envs@) =~= spec_chroot_envs());
    ScriptCommand {
        script: String::from_str(script),
        dir: Some(String::from_str(dir)),
        clear_env: true,
        envs,
        log_file: Some(String::from_str("/root/log.log")),
        check_status: true,
    }
}

/// A package build script run on the host from the directory `dir`, keeping
/// the host's environment, its output going to `/root/log.log`.
pub fn build_script_command(script: &str, dir: &str) -> (cmd: ScriptCommand)
    ensures
        cmd.script@ == script@,
        opt_view(cmd.dir) == Some(dir@),
        !cmd.clear_env,
        envs_view(cmd.envs@) == spec_build_envs(),
        opt_view(cmd.log_file) == Some("/root/log.log"@),
        cmd.check_status,
{
    let mut envs: Vec<(String, String)> = Vec::new();
    envs.push(env_pair("MAKEFLAGS", "-j8"));
    assert(envs_view(envs@) =~= spec_build_envs());
    ScriptCommand {
        script: String::from_str(script),
        dir: Some(String::from_str(dir)),
        clear_env: false,
        envs,
        log_file: Some(String::from_str("/root/log.log")),
        check_status: true,
    }
}

/// A script that configures the new system, with a clean environment, its
/// output going to `/root/config.log`.
pub fn config_script_command(script: &str) -> (cmd: ScriptCommand)
    ensures
        cmd.script@ == script@,
        cmd.dir is None,
        cmd.clear_env,
        envs_view(cmd.envs@) == spec_config_envs(),
        opt_view(cmd.log_file) == Some("/root/config.log"@),
        cmd.check_status,
{
    let mut envs: Vec<(String, String)> = Vec::new();
    envs.push(env_pair("PATH", "/usr/bin:/usr/sbin"));
    envs.push(env_pair("HOME", "/root"));
    envs.push(env_pair("TERM", "$TERM"));
    assert(envs_view(envs@) =~= spec_config_envs());
    ScriptCommand {
        script: String::from_str(script),
        dir: None,
        clear_env: true,
        envs,
        log_file: Some(String::from_str("/root/config.log")),
        check_status: true,
    }
}

/// A script run on the host as it is, with the builder's own environment and
/// output; it succeeds when it exits with status 0.
pub fn host_script_command(script: &str) -> (cmd: ScriptCommand)
    ensures
        cmd.script@ == script@,
        cmd.dir is None,
        !cmd.clear_env,
        cmd.envs@.len() == 0,
        cmd.log_file is None,
        cmd.check_status,
{
    ScriptCommand {
        script: String::from_str(script),
        dir: None,
        clear_env: false,
        envs: Vec::new(),
        log_file: None,
        check_status: true,
    }
}

/// The script that prepares the host's directories: its output goes to
/// `/root/prepare.log`, and it succeeds once it has been started.
pub fn prepare_script_command(script: &str) -> (cmd: ScriptCommand)
    ensures
        cmd.script@ == script@,
        cmd.dir is None,
        !cmd.clear_env,
        cmd.envs@.len() == 0,
        opt_view(cmd.log_file) == Some("/root/prepare.log"@),
        !cmd.check_status,
{
    ScriptCommand {
        script: String::from_str(script),
        dir: None,
        clear_env: false,
        envs: Vec::new(),
        log_file: Some(String::from_str("/root/prepare.log")),
        check_status: false,
    }
}

} // verus!
