use vstd::prelude::*;
use vstd::string::*;
use crate::paths::{concat2, concat3, file_name, join_path, spec_file_name, spec_join};
use crate::scripts::{
    build_script_command, chroot_script_command, envs_view, opt_view, spec_build_envs,
    spec_chroot_envs, ScriptCommand,
};
use crate::trusted::{debug_path, debug_string, spec_debug_path, spec_debug_string};

verus! {

/// Where a package's archive and build script are found and where it is
/// unpacked and built.
pub struct InstallInfo {
    /// Prefix of the directory the archive unpacks into.
    pub dir_name: String,
    /// Prefix of the archive's file name.
    pub package_name: String,
    /// Prefix of the build script's file name (without `.sh`).
    pub script_name: String,
    /// Directory (with trailing `/`) holding the build scripts.
    pub script_path: String,
    /// Directory (with trailing `/`) holding the archives.
    pub package_source_path: String,
    /// Directory (with trailing `/`) the archive is unpacked into.
    pub package_target_path: String,
}

/// An install request as character sequences.
pub struct InstallInfoView {
    pub dir_name: Seq<char>,
    pub package_name: Seq<char>,
    pub script_name: Seq<char>,
    pub script_path: Seq<char>,
    pub package_source_path: Seq<char>,
    pub package_target_path: Seq<char>,
}

impl View for InstallInfo {
    type V = InstallInfoView;

    open spec fn view(&self) -> InstallInfoView {
        InstallInfoView {
            dir_name: self.dir_name@,
            package_name: self.package_name@,
            script_name: self.script_name@,
            script_path: self.script_path@,
            package_source_path: self.package_source_path@,
            package_target_path: self.package_target_path@,
        }
    }
}

impl InstallInfo {
    /// A copy of this install request.
    pub fn duplicate(&self) -> (res: InstallInfo)
        ensures
            res@ == self@,
    {
        InstallInfo {
            dir_name: self.dir_name.clone(),
            package_name: self.package_name.clone(),
            script_name: self.script_name.clone(),
            script_path: self.script_path.clone(),
            package_source_path: self.package_source_path.clone(),
            package_target_path: self.package_target_path.clone(),
        }
    }
}

/// The install request assembled from its parts.
pub open spec fn spec_install_info(
    dir_name: Seq<char>,
    package_name: Seq<char>,
    script_name: Seq<char>,
    script_path: Seq<char>,
    package_source_path: Seq<char>,
    package_target_path: Seq<char>,
) -> InstallInfoView {
    InstallInfoView {
        dir_name,
        package_name,
        script_name,
        script_path,
        package_source_path,
        package_target_path,
    }
}

/// Assembles an install request from its parts.
pub fn make_install_info(
    dir_name: &str,
    package_name: &str,
    script_name: &str,
    script_path: &str,
    package_source_path: &str,
    package_target_path: &str,
) -> (res: InstallInfo)
    ensures
        res@ == spec_install_info(
            dir_name@,
            package_name@,
            script_name@,
            script_path@,
            package_source_path@,
            package_target_path@,
        ),
{
    InstallInfo {
        dir_name: String::from_str(dir_name),
        package_name: String::from_str(package_name),
        script_name: String::from_str(script_name),
        script_path: String::from_str(script_path),
        package_source_path: String::from_str(package_source_path),
        package_target_path: String::from_str(package_target_path),
    }
}

/// The answer to a search for files matching a pattern.
pub enum GlobOutcome {
    /// The first readable match.
    Found(String),
    /// Nothing matched.
    NoMatch,
    /// The pattern is malformed; the text describes why.
    PatternError(String),
}

/// What the outside world reports back to a package install.
pub enum InstallEvent {
    Searched(GlobOutcome),
    Unpacked,
    Copied(Result<(), String>),
    ScriptExited(bool),
    Removed,
}

/// Where a package install stands.
pub enum InstallPhase {
    /// Looking for the package's archive.
    FindPackage,
    /// Looking for the build script; the archive was found.
    FindScript { package: String },
    /// Unpacking the archive.
    Unpack { package: String, script: String },
    /// Looking for the directory the archive unpacked into.
    FindUnpacked { script: String },
    /// Copying the build script into the unpacked directory.
    CopyScript { script: String, target: String },
    /// Running the build script in the unpacked directory.
    RunScript { target: String },
    /// Removing the unpacked directory; records whether the script succeeded.
    Cleanup { target: String, succeeded: bool },
    /// Finished.
    Done { result: Result<bool, String> },
}

/// A phase with its texts as character sequences.
pub enum PhaseView {
    FindPackage,
    FindScript { package: Seq<char> },
    Unpack { package: Seq<char>, script: Seq<char> },
    FindUnpacked { script: Seq<char> },
    CopyScript { script: Seq<char>, target: Seq<char> },
    RunScript { target: Seq<char> },
    Cleanup { target: Seq<char>, succeeded: bool },
    Done { result: Result<bool, Seq<char>> },
}

impl View for InstallPhase {
    type V = PhaseView;

    open spec fn view(&self) -> PhaseView {
        match self {
            InstallPhase::FindPackage => PhaseView::FindPackage,
            InstallPhase::FindScript { package } => PhaseView::FindScript { package: package@ },
            InstallPhase::Unpack { package, script } => PhaseView::Unpack {
                package: package@,
                script: script@,
            },
            InstallPhase::FindUnpacked { script } => PhaseView::FindUnpacked { script: script@ },
            InstallPhase::CopyScript { script, target } => PhaseView::CopyScript {
                script: script@,
                target: target@,
            },
            InstallPhase::RunScript { target } => PhaseView::RunScript { target: target@ },
            InstallPhase::Cleanup { target, succeeded } => PhaseView::Cleanup {
                target: target@,
                succeeded: *succeeded,
            },
            InstallPhase::Done { result } => PhaseView::Done {
                result: match result {
                    Ok(b) => Ok(*b),
                    Err(e) => Err(e@),
                },
            },
        }
    }
}

/// What a package install asks to be done next.
pub enum InstallAction {
    /// Search for the files matching `pattern` and report the first one.
    FindFile { pattern: String },
    /// Unpack the archive into the directory `into` (with `tar xf`).
    Unpack { archive: String, into: String },
    /// Copy the file `from` to `to`.
    CopyScript { from: String, to: String },
    /// Run the build script.
    RunScript { command: ScriptCommand },
    /// Remove the directory `dir` with everything in it.
    RemoveDir { dir: String },
    /// The install is over with this result.
    Finish { result: Result<bool, String> },
}

/// The pattern that finds a package's archive.
pub open spec fn spec_package_pattern(info: InstallInfoView) -> Seq<char> {
    info.package_source_path + info.package_name + "*"@
}

/// The pattern that finds a package's build script.
pub open spec fn spec_script_pattern(info: InstallInfoView) -> Seq<char> {
    info.script_path + info.script_name + "*sh"@
}

/// The pattern that finds the directory a package unpacked into.
pub open spec fn spec_unpacked_pattern(info: InstallInfoView) -> Seq<char> {
    info.package_target_path + info.dir_name + "*/"@
}

/// The name the build script gets inside the unpacked directory.
pub open spec fn spec_script_file(info: InstallInfoView) -> Seq<char> {
    info.script_name + ".sh"@
}

/// The error when no archive is found.
pub open spec fn spec_no_package_error(info: InstallInfoView) -> Seq<char> {
    "Not found package "@ + spec_debug_string(info.package_name)
}

/// The error when no build script is found.
pub open spec fn spec_no_script_error(info: InstallInfoView) -> Seq<char> {
    "Not found script "@ + spec_debug_string(info.package_name)
}

/// The error when the unpacked directory is not found.
pub open spec fn spec_no_target_error(info: InstallInfoView) -> Seq<char> {
    "Can not get target path "@ + info.package_name
}

/// The error when the build script fails in the directory `target`.
pub open spec fn spec_failed_error(target: Seq<char>) -> Seq<char> {
    "Package "@ + spec_debug_path(target) + " install failed"@
}

/// The phase after `event` answers the search that `phase` made: `next`
/// with the file found, or the end with the error for a missing file.
pub open spec fn spec_after_search(
    outcome: GlobOutcome,
    next: spec_fn(Seq<char>) -> PhaseView,
    missing: Seq<char>,
) -> PhaseView {
    match outcome {
        GlobOutcome::Found(f) => next(f@),
        GlobOutcome::NoMatch => PhaseView::Done { result: Err(missing) },
        GlobOutcome::PatternError(e) => PhaseView::Done { result: Err(e@) },
    }
}

/// How a package install moves on when `event` comes in; an event that does
/// not answer the current phase's action changes nothing.
pub open spec fn spec_next_phase(info: InstallInfoView, phase: PhaseView, event: InstallEvent) -> PhaseView {
    match (phase, event) {
        (PhaseView::FindPackage, InstallEvent::Searched(o)) => spec_after_search(
            o,
            |f: Seq<char>| PhaseView::FindScript { package: f },
            spec_no_package_error(info),
        ),
        (PhaseView::FindScript { package }, InstallEvent::Searched(o)) => spec_after_search(
            o,
            |f: Seq<char>| PhaseView::Unpack { package, script: f },
            spec_no_script_error(info),
        ),
        (PhaseView::Unpack { package, script }, InstallEvent::Unpacked) => PhaseView::FindUnpacked {
            script,
        },
        (PhaseView::FindUnpacked { script }, InstallEvent::Searched(o)) => spec_after_search(
            o,
            |f: Seq<char>| PhaseView::CopyScript { script, target: f },
            spec_no_target_error(info),
        ),
        (PhaseView::CopyScript { script, target }, InstallEvent::Copied(r)) => match r {
            Ok(_) => PhaseView::RunScript { target },
            Err(e) => PhaseView::Done { result: Err(e@) },
        },
        (PhaseView::RunScript { target }, InstallEvent::ScriptExited(ok)) => PhaseView::Cleanup {
            target,
            succeeded: ok,
        },
        (PhaseView::Cleanup { target, succeeded }, InstallEvent::Removed) => PhaseView::Done {
            result: if succeeded {
                Ok(true)
            } else {
                Err(spec_failed_error(target))
            },
        },
        (p, _) => p,
    }
}

/// An install of one package: find its archive and build script, unpack the
/// archive, copy the script into the unpacked directory, run it there
/// (inside the new root or on the host), and remove the directory.
pub struct PackageInstall {
    pub info: InstallInfo,
    /// Whether the build script runs inside the new root.
    pub chroot: bool,
    pub phase: InstallPhase,
}

impl PackageInstall {
    /// A finished install never reports that nothing was installed: its
    /// result is either `Ok(true)` or an error.
    pub open spec fn wf(&self) -> bool {
        self.phase@ matches PhaseView::Done { result: Ok(b) } ==> b
    }

    /// What the install asks to be done in its current phase.
    pub fn action(&self) -> (act: InstallAction)
        ensures
            self.phase@ is FindPackage ==> (act matches InstallAction::FindFile { pattern }
                && pattern@ == spec_package_pattern(self.info@)
                && pattern@ == self.info.package_source_path@ + self.info.package_name@ + "*"@),
            self.phase@ is FindScript ==> (act matches InstallAction::FindFile { pattern }
                && pattern@ == spec_script_pattern(self.info@)
                && pattern@ == self.info.script_path@ + self.info.script_name@ + "*sh"@),
            self.phase@ matches PhaseView::Unpack { package, script } ==> act matches InstallAction::Unpack { archive, into }
                && archive@ == package && into@ == self.info@.package_target_path,
            self.phase@ is FindUnpacked ==> (act matches InstallAction::FindFile { pattern }
                && pattern@ == spec_unpacked_pattern(self.info@)
                && pattern@ == self.info.package_target_path@ + self.info.dir_name@ + "*/"@),
            self.phase@ matches PhaseView::CopyScript { script, target } ==> act matches InstallAction::CopyScript { from, to }
                && from@ == script && to@ == spec_join(target, spec_script_file(self.info@))
                && to@ == spec_join(target, self.info.script_name@ + ".sh"@),
            self.phase@ matches PhaseView::RunScript { target } ==> act matches InstallAction::RunScript { command }
                && command.script@ == spec_file_name(spec_script_file(self.info@))
                && command.script@ == spec_file_name(self.info.script_name@ + ".sh"@)
                && opt_view(command.dir) == Some(target)
                && command.clear_env == self.chroot
                && envs_view(command.envs@) == (if self.chroot { spec_chroot_envs() } else { spec_build_envs() })
                && opt_view(command.log_file) == Some("/root/log.log"@)
                && command.check_status,
            self.phase@ matches PhaseView::Cleanup { target, succeeded } ==> act matches InstallAction::RemoveDir { dir }
                && dir@ == target,
            self.phase@ matches PhaseView::Done { result } ==> act matches InstallAction::Finish { result: r }
                && match (r, result) {
                    (Ok(a), Ok(b)) => a == b,
                    (Err(a), Err(b)) => a@ == b,
                    _ => false,
                },
    {
        match &self.phase {
            InstallPhase::FindPackage => {
                let pattern = concat3(
                    self.info.package_source_path.as_str(),
                    self.info.package_name.as_str(),
                    "*",
                );
                InstallAction::FindFile { pattern }
            },
            InstallPhase::FindScript { .. } => {
                let pattern = concat3(self.info.script_path.as_str(), self.info.script_name.as_str(), "*sh");
                InstallAction::FindFile { pattern }
            },
            InstallPhase::Unpack { package, .. } => InstallAction::Unpack {
                archive: package.clone(),
                into: self.info.package_target_path.clone(),
            },
            InstallPhase::FindUnpacked { .. } => {
                let pattern = concat3(
                    self.info.package_target_path.as_str(),
                    self.info.dir_name.as_str(),
                    "*/",
                );
                InstallAction::FindFile { pattern }
            },
            InstallPhase::CopyScript { script, target } => {
                let script_file = concat2(self.info.script_name.as_str(), ".sh");
                InstallAction::CopyScript {
                    from: script.clone(),
                    to: join_path(target.as_str(), script_file.as_str()),
                }
            },
            InstallPhase::RunScript { target } => {
                let script_file = concat2(self.info.script_name.as_str(), ".sh");
                let name = file_name(script_file.as_str());
                let command = if self.chroot {
                    chroot_script_command(name.as_str(), target.as_str())
                } else {
                    build_script_command(name.as_str(), target.as_str())
                };
                InstallAction::RunScript { command }
            },
            InstallPhase::Cleanup { target, .. } => InstallAction::RemoveDir { dir: target.clone() },
            InstallPhase::Done { result } => {
                let r = match result {
                    Ok(b) => Ok(*b),
                    Err(e) => Err(e.clone()),
                };
                InstallAction::Finish { result: r }
            },
        }
    }

    /// Moves the install on with `event`, the answer to its last action.
    pub fn advance(&mut self, event: InstallEvent)
        ensures
            final(self).phase@ == spec_next_phase(old(self).info@, old(self).phase@, event),
            final(self).info@ == old(self).info@,
            final(self).chroot == old(self).chroot,
            old(self).wf() ==> final(self).wf(),
    {
        let ghost old_phase = self.phase@;
        let ghost info = self.info@;
        let mut phase = InstallPhase::FindPackage;
        std::mem::swap(&mut phase, &mut self.phase);
        let next = match phase {
            InstallPhase::FindPackage => match event {
                InstallEvent::Searched(GlobOutcome::Found(f)) => InstallPhase::FindScript { package: f },
                InstallEvent::Searched(GlobOutcome::NoMatch) => {
                    let msg = concat2("Not found package ", debug_string(self.info.package_name.as_str()).as_str());
                    InstallPhase::Done { result: Err(msg) }
                },
                InstallEvent::Searched(GlobOutcome::PatternError(e)) => InstallPhase::Done { result: Err(e) },
                _ => InstallPhase::FindPackage,
            },
            InstallPhase::FindScript { package } => match event {
                InstallEvent::Searched(GlobOutcome::Found(f)) => InstallPhase::Unpack { package, script: f },
                InstallEvent::Searched(GlobOutcome::NoMatch) => {
                    let msg = concat2("Not found script ", debug_string(self.info.package_name.as_str()).as_str());
                    InstallPhase::Done { result: Err(msg) }
                },
                InstallEvent::Searched(GlobOutcome::PatternError(e)) => InstallPhase::Done { result: Err(e) },
                _ => InstallPhase::FindScript { package },
            },
            InstallPhase::Unpack { package, script } => match event {
                InstallEvent::Unpacked => InstallPhase::FindUnpacked { script },
                _ => InstallPhase::Unpack { package, script },
            },
            InstallPhase::FindUnpacked { script } => match event {
                InstallEvent::Searched(GlobOutcome::Found(f)) => InstallPhase::CopyScript { script, target: f },
                InstallEvent::Searched(GlobOutcome::NoMatch) => {
                    let msg = concat2("Can not get target path ", self.info.package_name.as_str());
                    InstallPhase::Done { result: Err(msg) }
                },
                InstallEvent::Searched(GlobOutcome::PatternError(e)) => InstallPhase::Done { result: Err(e) },
                _ => InstallPhase::FindUnpacked { script },
            },
            InstallPhase::CopyScript { script, target } => match event {
                InstallEvent::Copied(Ok(())) => InstallPhase::RunScript { target },
                InstallEvent::Copied(Err(e)) => InstallPhase::Done { result: Err(e) },
                _ => InstallPhase::CopyScript { script, target },
            },
            InstallPhase::RunScript { target } => match event {
                InstallEvent::ScriptExited(ok) => InstallPhase::Cleanup { target, succeeded: ok },
                _ => InstallPhase::RunScript { target },
            },
            InstallPhase::Cleanup { target, succeeded } => match event {
                InstallEvent::Removed => {
                    if succeeded {
                        InstallPhase::Done { result: Ok(true) }
                    } else {
                        let msg = concat3("Package ", debug_path(target.as_str()).as_str(), " install failed");
                        InstallPhase::Done { result: Err(msg) }
                    }
                },
                _ => InstallPhase::Cleanup { target, succeeded },
            },
            InstallPhase::Done { result } => InstallPhase::Done { result },
        };
        self.phase = next;
    }

    /// Whether the install is over.
    pub fn is_finished(&self) -> (res: bool)
        ensures
            res == (self.phase@ is Done),
    {
        match &self.phase {
            InstallPhase::Done { .. } => true,
            _ => false,
        }
    }
}

/// Starts the install of the package that `package_info` describes; its
/// build script runs inside the new root when `chroot_flag` is set.
pub fn install_package(package_info: InstallInfo, chroot_flag: bool) -> (m: PackageInstall)
    ensures
        m.info@ == package_info@,
        m.chroot == chroot_flag,
        m.phase@ is FindPackage,
        m.wf(),
{
    PackageInstall { info: package_info, chroot: chroot_flag, phase: InstallPhase::FindPackage }
}

/// How far an install has come.
pub open spec fn phase_rank(p: PhaseView) -> int {
    match p {
        PhaseView::FindPackage => 0,
        PhaseView::FindScript { .. } => 1,
        PhaseView::Unpack { .. } => 2,
        PhaseView::FindUnpacked { .. } => 3,
        PhaseView::CopyScript { .. } => 4,
        PhaseView::RunScript { .. } => 5,
        PhaseView::Cleanup { .. } => 6,
        PhaseView::Done { .. } => 7,
    }
}

/// The phase that runs the build script in `target`.
pub open spec fn run_phase(target: Seq<char>) -> PhaseView {
    PhaseView::RunScript { target }
}

/// The finished phase with `result`.
pub open spec fn done_phase(result: Result<bool, Seq<char>>) -> PhaseView {
    PhaseView::Done { result }
}

/// `p` removes the directory `target`.
pub open spec fn removes_dir(p: PhaseView, target: Seq<char>) -> bool {
    p matches PhaseView::Cleanup { target: t, .. } && t == target
}

/// Every event either leaves an install where it is or moves it strictly
/// forward, so an install ends after at most seven answered actions.
pub proof fn lemma_install_moves_forward(info: InstallInfoView, phase: PhaseView, event: InstallEvent)
    ensures
        spec_next_phase(info, phase, event) == phase
            || phase_rank(spec_next_phase(info, phase, event)) > phase_rank(phase),
{
}

/// Once the build script has run, the install removes the unpacked
/// directory before it finishes.
pub proof fn lemma_script_run_leads_to_cleanup(info: InstallInfoView, target: Seq<char>, event: InstallEvent)
    ensures
        spec_next_phase(info, run_phase(target), event) == run_phase(target)
            || removes_dir(spec_next_phase(info, run_phase(target), event), target),
{
}

/// An install finishes successfully only by removing the unpacked directory
/// after a build script that exited successfully, and its result is then
/// `Ok(true)`.
pub proof fn lemma_success_only_after_script_success(info: InstallInfoView, phase: PhaseView, event: InstallEvent)
    requires
        !(phase is Done),
        spec_next_phase(info, phase, event) is Done,
        spec_next_phase(info, phase, event)->result is Ok,
    ensures
        phase is Cleanup,
        phase->succeeded,
        event is Removed,
        spec_next_phase(info, phase, event) == done_phase(Ok(true)),
{
}

/// A finished install stays finished with the same result.
pub proof fn lemma_finished_install_is_final(info: InstallInfoView, result: Result<bool, Seq<char>>, event: InstallEvent)
    ensures
        spec_next_phase(info, done_phase(result), event) == done_phase(result),
{
}

/// The searches of an install are made from the request's fields: the
/// archive is `package_source_path` + `package_name` + `*`, the build
/// script is `script_path` + `script_name` + `*sh`, and the unpacked
/// directory is `package_target_path` + `dir_name` + `*/` (named by
/// `dir_name`, not by the archive's name); the script is copied in as
/// `script_name` + `.sh`.
pub proof fn lemma_install_searches_use_request_fields(info: InstallInfo)
    ensures
        spec_package_pattern(info@) == info.package_source_path@ + info.package_name@ + "*"@,
        spec_script_pattern(info@) == info.script_path@ + info.script_name@ + "*sh"@,
        spec_unpacked_pattern(info@) == info.package_target_path@ + info.dir_name@ + "*/"@,
        spec_script_file(info@) == info.script_name@ + ".sh"@,
{
}

/// The unpacked directory is found by `dir_name`: two requests with the same
/// target directory but different `dir_name`s search for different
/// directories after unpacking.
pub proof fn lemma_unpacked_search_follows_dir_name(a: InstallInfoView, b: InstallInfoView)
    requires
        a.package_target_path == b.package_target_path,
        a.dir_name != b.dir_name,
    ensures
        spec_unpacked_pattern(a) != spec_unpacked_pattern(b),
{
    let pa = spec_unpacked_pattern(a);
    let pb = spec_unpacked_pattern(b);
    let t = a.package_target_path.len();
    if pa == pb {
        if a.dir_name.len() == b.dir_name.len() {
            assert forall|k: int| 0 <= k < a.dir_name.len() implies a.dir_name[k] == b.dir_name[k] by {
                assert(pa[t + k] == a.dir_name[k]);
                assert(pb[t + k] == b.dir_name[k]);
            }
            assert(a.dir_name =~= b.dir_name);
        } else {
            assert(pa.len() != pb.len());
        }
    }
}

} // verus!
