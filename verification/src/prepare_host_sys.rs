use vstd::prelude::*;
use vstd::string::*;
use crate::config::{AllPackages, BaseConfig, EnvsInfo, PackageInfo, PatchInfo};
use crate::download::{DownloadItem, DownloadPhase, DownloadRun};
use crate::paths::{concat2, concat3};
use crate::scripts::prepare_script_command;
use crate::steps::{is_prepare_script, TaskStep};

verus! {

/// `item` fetches `url` into `dir`, is found by `pattern` and recorded as `name`.
pub open spec fn is_download_item(
    item: DownloadItem,
    name: Seq<char>,
    pattern: Seq<char>,
    url: Seq<char>,
    dir: Seq<char>,
    remove_partial: bool,
) -> bool {
    &&& item.name@ == name
    &&& item.pattern@ == pattern
    &&& item.url@ == url
    &&& item.dir@ == dir
    &&& item.remove_partial == remove_partial
}

/// The download of a package archive: kept in the build directory, where an
/// earlier copy is looked for and a partial one removed before each attempt.
pub open spec fn is_package_item(item: DownloadItem, config: BaseConfig, p: PackageInfo) -> bool {
    is_download_item(item, p.name@, config.path.package_build@ + p.name@, p.url@, config.path.package_build@, true)
}

/// The download of a patch: kept in the patch directory under the source
/// directory, where an earlier copy is looked for.
pub open spec fn is_patch_item(item: DownloadItem, config: BaseConfig, p: PatchInfo) -> bool {
    is_download_item(
        item,
        p.name@,
        config.path.package_source@ + config.path.package_patches@ + p.name@,
        p.url@,
        config.path.package_source@ + config.path.package_patches@,
        false,
    )
}

/// Downloads every package archive and patch.
pub struct PreparingSoftware {}

impl PreparingSoftware {
    /// The files to fetch, in order: every package archive, then every patch.
    pub fn downloads(&self, config: &BaseConfig, packages: &AllPackages) -> (items: Vec<DownloadItem>)
        ensures
            items@.len() == packages.all_packages@.len() + packages.package_patches@.len(),
            forall|i: int| 0 <= i < packages.all_packages@.len() ==> is_package_item(
                #[trigger] items@[i], *config, packages.all_packages@[i]),
            forall|i: int| 0 <= i < packages.package_patches@.len() ==> is_patch_item(
                #[trigger] items@[packages.all_packages@.len() + i], *config, packages.package_patches@[i]),
    {
        let mut items: Vec<DownloadItem> = Vec::new();
        let build = &config.path.package_build;
        let n = packages.all_packages.len();
        let mut i: usize = 0;
        while i < n
            invariant
                n == packages.all_packages@.len(),
                build == &config.path.package_build,
                i <= n,
                items@.len() == i,
                forall|j: int| 0 <= j < i ==> is_package_item(#[trigger] items@[j], *config, packages.all_packages@[j]),
            decreases n - i,
        {
            let p = &packages.all_packages[i];
            items.push(DownloadItem {
                name: p.name.clone(),
                pattern: concat2(build.as_str(), p.name.as_str()),
                url: p.url.clone(),
                dir: build.clone(),
                remove_partial: true,
            });
            i = i + 1;
        }
        let patch_dir = concat2(config.path.package_source.as_str(), config.path.package_patches.as_str());
        let m = packages.package_patches.len();
        let mut k: usize = 0;
        while k < m
            invariant
                n == packages.all_packages@.len(),
                m == packages.package_patches@.len(),
                patch_dir@ == config.path.package_source@ + config.path.package_patches@,
                k <= m,
                items@.len() == n + k,
                forall|j: int| 0 <= j < n ==> is_package_item(#[trigger] items@[j], *config, packages.all_packages@[j]),
                forall|j: int| 0 <= j < k ==> is_patch_item(#[trigger] items@[n + j], *config, packages.package_patches@[j]),
            decreases m - k,
        {
            let p = &packages.package_patches[k];
            items.push(DownloadItem {
                name: p.name.clone(),
                pattern: concat2(patch_dir.as_str(), p.name.as_str()),
                url: p.url.clone(),
                dir: patch_dir.clone(),
                remove_partial: false,
            });
            k = k + 1;
        }
        items
    }

    /// Starts fetching every package archive and patch, as `downloads` lists them.
    pub fn preparing_base_software(&self, config: &BaseConfig, packages: &AllPackages) -> (run: DownloadRun)
        ensures
            run.items@.len() == packages.all_packages@.len() + packages.package_patches@.len(),
            forall|i: int| 0 <= i < packages.all_packages@.len() ==> is_package_item(
                #[trigger] run.items@[i], *config, packages.all_packages@[i]),
            forall|i: int| 0 <= i < packages.package_patches@.len() ==> is_patch_item(
                #[trigger] run.items@[packages.all_packages@.len() + i], *config, packages.package_patches@[i]),
            run.current == 0,
            run.phase == DownloadPhase::Check,
            run.statuses@.len() == 0,
            run.wf(),
    {
        DownloadRun::new(self.downloads(config, packages))
    }
}

/// Prepares the directories of the target partition on the host.
pub struct PreparingDirs {}

impl PreparingDirs {
    /// Starts `prepare_host_dirs.sh` from the host preparation script directory.
    pub fn steps(&self, config: &BaseConfig) -> (steps: Vec<TaskStep>)
        ensures
            steps@.len() == 1,
            is_prepare_script(steps@[0],
                config.scripts_path.root@ + config.scripts_path.prepare@ + "prepare_host_dirs.sh"@),
    {
        let path = concat3(config.scripts_path.root.as_str(), config.scripts_path.prepare.as_str(), "prepare_host_dirs.sh");
        let mut steps: Vec<TaskStep> = Vec::new();
        steps.push(TaskStep::Script(prepare_script_command(path.as_str())));
        steps
    }
}

/// What to do with one environment variable of the configuration.
pub enum EnvUpdate {
    /// It already has the wanted value.
    Keep,
    /// It has another value, `from`, and is set to the wanted one.
    Reset { from: String },
    /// It is not set (or not valid text) and is set to the wanted value.
    SetNew,
}

/// The value a variable has after `update` is applied.
pub open spec fn spec_value_after(current: Option<Seq<char>>, wanted: Seq<char>, update: EnvUpdate) -> Option<Seq<char>> {
    match update {
        EnvUpdate::Keep => current,
        _ => Some(wanted),
    }
}

/// The update that `CheckEnv` decides on for a variable.
pub open spec fn spec_env_update_is(current: Option<Seq<char>>, wanted: EnvsInfo, update: EnvUpdate) -> bool {
    match current {
        Some(v) => if v == wanted.value@ {
            update is Keep
        } else {
            update matches EnvUpdate::Reset { from } && from@ == v
        },
        None => update is SetNew,
    }
}

/// Gives the builder's process the environment variables the configuration asks for.
pub struct CheckEnv {}

impl CheckEnv {
    /// What to do with the variable `wanted.name`, whose value is `current`.
    pub fn update(&self, current: Option<String>, wanted: &EnvsInfo) -> (update: EnvUpdate)
        ensures
            spec_env_update_is(match current { Some(v) => Some(v@), None => None }, *wanted, update),
    {
        match current {
            Some(v) => {
                if v == wanted.value {
                    EnvUpdate::Keep
                } else {
                    EnvUpdate::Reset { from: v }
                }
            },
            None => EnvUpdate::SetNew,
        }
    }
}

/// After the update that `CheckEnv` decides on, the variable has the wanted
/// value, and it is written exactly when it did not have that value.
pub proof fn lemma_env_update_gives_wanted_value(current: Option<Seq<char>>, wanted: EnvsInfo, update: EnvUpdate)
    requires
        spec_env_update_is(current, wanted, update),
    ensures
        spec_value_after(current, wanted.value@, update) == Some(wanted.value@),
        (update is Keep) <==> current == Some(wanted.value@),
{
}

/// An environment with `update`, decided for `wanted`, applied to it.
pub open spec fn spec_apply_update(env: Map<Seq<char>, Seq<char>>, wanted: EnvsInfo, update: EnvUpdate) -> Map<Seq<char>, Seq<char>> {
    match update {
        EnvUpdate::Keep => env,
        _ => env.insert(wanted.name@, wanted.value@),
    }
}

/// An environment after `CheckEnv` has handled `wanted`.
pub open spec fn spec_check_env(env: Map<Seq<char>, Seq<char>>, wanted: EnvsInfo) -> Map<Seq<char>, Seq<char>> {
    if env.get(wanted.name@) == Some(wanted.value@) {
        env
    } else {
        env.insert(wanted.name@, wanted.value@)
    }
}

/// An environment after `CheckEnv` has handled every variable of `list`, in order.
pub open spec fn spec_check_envs(env: Map<Seq<char>, Seq<char>>, list: Seq<EnvsInfo>) -> Map<Seq<char>, Seq<char>>
    decreases list.len(),
{
    if list.len() == 0 {
        env
    } else {
        spec_check_env(spec_check_envs(env, list.drop_last()), list.last())
    }
}

/// Applying the update that `CheckEnv::update` decides on handles the
/// variable as `spec_check_env` says.
pub proof fn lemma_update_handles_variable(env: Map<Seq<char>, Seq<char>>, wanted: EnvsInfo, update: EnvUpdate)
    requires
        spec_env_update_is(env.get(wanted.name@), wanted, update),
    ensures
        spec_apply_update(env, wanted, update) == spec_check_env(env, wanted),
{
    if update is Keep {
        assert(env.contains_key(wanted.name@));
        assert(env.insert(wanted.name@, wanted.value@) =~= env);
    }
}

/// No later entry of `list` names the same variable as entry `i`.
pub open spec fn is_last_setting(list: Seq<EnvsInfo>, i: int) -> bool {
    forall|j: int| i < j < list.len() ==> #[trigger] list[j].name@ != list[i].name@
}

/// What a variable reads after `CheckEnv` has handled `wanted`.
proof fn lemma_check_env_get(env: Map<Seq<char>, Seq<char>>, wanted: EnvsInfo, k: Seq<char>)
    ensures
        spec_check_env(env, wanted).get(k) == (if k == wanted.name@ {
            Some(wanted.value@)
        } else {
            env.get(k)
        }),
{
}

/// After `CheckEnv` has handled a list of variables, each variable of the
/// list has the value of its last entry.
pub proof fn lemma_check_envs_sets_listed(env: Map<Seq<char>, Seq<char>>, list: Seq<EnvsInfo>, i: int)
    requires
        0 <= i < list.len(),
        is_last_setting(list, i),
    ensures
        spec_check_envs(env, list).get(list[i].name@) == Some(list[i].value@),
    decreases list.len(),
{
    let prev = list.drop_last();
    let n = list.len() - 1;
    let before = spec_check_envs(env, prev);
    lemma_check_env_get(before, list[n], list[i].name@);
    if i < n {
        assert(list[n].name@ != list[i].name@);
        assert(prev[i] == list[i]);
        assert forall|j: int| i < j < prev.len() implies #[trigger] prev[j].name@ != prev[i].name@ by {
            assert(prev[j] == list[j]);
        }
        lemma_check_envs_sets_listed(env, prev, i);
    }
}

/// After `CheckEnv` has handled a list of variables, every variable that
/// the list does not name is as it was.
pub proof fn lemma_check_envs_keeps_others(env: Map<Seq<char>, Seq<char>>, list: Seq<EnvsInfo>, k: Seq<char>)
    requires
        forall|i: int| 0 <= i < list.len() ==> #[trigger] list[i].name@ != k,
    ensures
        spec_check_envs(env, list).get(k) == env.get(k),
    decreases list.len(),
{
    if list.len() > 0 {
        let prev = list.drop_last();
        let n = list.len() - 1;
        assert(list[n].name@ != k);
        assert forall|i: int| 0 <= i < prev.len() implies #[trigger] prev[i].name@ != k by {
            assert(prev[i] == list[i]);
        }
        lemma_check_envs_keeps_others(env, prev, k);
        lemma_check_env_get(spec_check_envs(env, prev), list[n], k);
    }
}

/// Backs up the host's bash profile unless that has been done.
pub struct BackupBashProfile {}

impl BackupBashProfile {
    /// The value the task hands on to the tasks after it: whether the
    /// backup had already been made before it ran (`false` when it makes
    /// the backup now).
    pub fn handed_on(&self, already_done: bool) -> (r: bool)
        ensures
            r == already_done,
    {
        already_done
    }

    /// The file to move and where to, when the backup is still to be made
    /// (`already_done` is false).
    pub fn backup(&self, already_done: bool) -> (res: Option<(String, String)>)
        ensures
            already_done ==> res is None,
            !already_done ==> (res matches Some(p) && p.0@ == "/root/.bash_profile"@
                && p.1@ == "/root/.bash_profile.bak"@),
    {
        if already_done {
            None
        } else {
            Some((String::from_str("/root/.bash_profile"), String::from_str("/root/.bash_profile.bak")))
        }
    }
}

/// Makes `sh`, `yacc` and `awk` on the host point to `bash`, `bison` and `gawk`.
pub struct PreparingEnv {}

/// The links the host needs: (name, program it points to).
pub open spec fn spec_links() -> Seq<(Seq<char>, Seq<char>)> {
    seq![("sh"@, "bash"@), ("yacc"@, "bison"@), ("awk"@, "gawk"@)]
}

/// The shell command that makes `/usr/bin/name` a link to `/usr/bin/target`.
pub open spec fn spec_link_command(name: Seq<char>, target: Seq<char>) -> Seq<char> {
    "sudo ln -s /usr/bin/"@ + target + " /usr/bin/"@ + name
}

impl PreparingEnv {
    /// For each link of `spec_links`, in order: the file removed first and
    /// the shell command that creates the link.
    pub fn prepare_env(&self) -> (res: Vec<(String, String)>)
        ensures
            res@.len() == 3,
            forall|i: int| 0 <= i < 3 ==> (#[trigger] res@[i]).0@ == "/usr/bin/"@ + spec_links()[i].0
                && res@[i].1@ == spec_link_command(spec_links()[i].0, spec_links()[i].1),
    {
        let mut res: Vec<(String, String)> = Vec::new();
        res.push(link_step("sh", "bash"));
        res.push(link_step("yacc", "bison"));
        res.push(link_step("awk", "gawk"));
        res
    }
}

fn link_step(name: &str, target: &str) -> (res: (String, String))
    ensures
        res.0@ == "/usr/bin/"@ + name@,
        res.1@ == spec_link_command(name@, target@),
{
    let path = concat2("/usr/bin/", name);
    let cmd = String::from_str("sudo ln -s /usr/bin/").concat(target).concat(" /usr/bin/").concat(name);
    (path, cmd)
}

/// Removes the configuration an earlier build left on the host; it has no steps yet.
pub struct CleanOldConfig {}

impl CleanOldConfig {
    /// The task's steps: none.
    pub fn steps(&self) -> (steps: Vec<TaskStep>)
        ensures
            steps@.len() == 0,
    {
        Vec::new()
    }
}

/// Resets every host setting the builder made; it has no steps yet.
pub struct ResetAllSystemConfig {}

impl ResetAllSystemConfig {
    /// The task's steps: none.
    pub fn steps(&self) -> (steps: Vec<TaskStep>)
        ensures
            steps@.len() == 0,
    {
        Vec::new()
    }
}

/// Mounts the target partition; it has no steps yet (the partition is mounted by hand).
pub struct MountTargetPart {}

impl MountTargetPart {
    /// The task's steps: none.
    pub fn steps(&self) -> (steps: Vec<TaskStep>)
        ensures
            steps@.len() == 0,
    {
        Vec::new()
    }
}

} // verus!
