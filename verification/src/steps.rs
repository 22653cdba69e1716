use vstd::prelude::*;
use crate::install::{InstallInfo, InstallInfoView};
use crate::scripts::{
    envs_view, opt_view, spec_chroot_envs, spec_config_envs, ScriptCommand,
};

verus! {

/// One step of a task.
pub enum TaskStep {
    /// Run a shell script.
    Script(ScriptCommand),
    /// Make `root` the root directory of the process.
    Chroot { root: String },
    /// Change the working directory to `dir`.
    SetCurrentDir { dir: String },
    /// Install a package; its build script runs inside the new root when
    /// `chroot` is set.
    Install { info: InstallInfo, chroot: bool },
}

/// `step` runs `script` inside the new root from `dir`.
pub open spec fn is_chroot_script(step: TaskStep, script: Seq<char>, dir: Seq<char>) -> bool {
    step matches TaskStep::Script(c) && {
        &&& c.script@ == script
        &&& opt_view(c.dir) == Some(dir)
        &&& c.clear_env
        &&& envs_view(c.envs@) == spec_chroot_envs()
        &&& opt_view(c.log_file) == Some("/root/log.log"@)
        &&& c.check_status
    }
}

/// `step` runs the configuration script `script`.
pub open spec fn is_config_script(step: TaskStep, script: Seq<char>) -> bool {
    step matches TaskStep::Script(c) && {
        &&& c.script@ == script
        &&& c.dir is None
        &&& c.clear_env
        &&& envs_view(c.envs@) == spec_config_envs()
        &&& opt_view(c.log_file) == Some("/root/config.log"@)
        &&& c.check_status
    }
}

/// `step` runs `script` on the host as it is.
pub open spec fn is_host_script(step: TaskStep, script: Seq<char>) -> bool {
    step matches TaskStep::Script(c) && {
        &&& c.script@ == script
        &&& c.dir is None
        &&& !c.clear_env
        &&& c.envs@.len() == 0
        &&& c.log_file is None
        &&& c.check_status
    }
}

/// `step` starts the host preparation script `script`.
pub open spec fn is_prepare_script(step: TaskStep, script: Seq<char>) -> bool {
    step matches TaskStep::Script(c) && {
        &&& c.script@ == script
        &&& c.dir is None
        &&& !c.clear_env
        &&& c.envs@.len() == 0
        &&& opt_view(c.log_file) == Some("/root/prepare.log"@)
        &&& !c.check_status
    }
}

/// `step` installs the package `info`.
pub open spec fn is_install(step: TaskStep, info: InstallInfoView, chroot: bool) -> bool {
    step matches TaskStep::Install { info: i, chroot: c } && i@ == info && c == chroot
}

/// The state of a run after one more step has reported `ok`: the run moves
/// to the next step when the step succeeded and stops as failed otherwise;
/// a finished run stays as it is.
pub open spec fn spec_record(len: nat, done: nat, failed: bool, ok: bool) -> (nat, bool) {
    if !failed && done < len {
        if ok {
            ((done + 1) as nat, false)
        } else {
            (done, true)
        }
    } else {
        (done, failed)
    }
}

/// The state of a run of `len` steps after the steps reported `results`, in order.
pub open spec fn spec_replay(len: nat, results: Seq<bool>) -> (nat, bool)
    decreases results.len(),
{
    if results.len() == 0 {
        (0, false)
    } else {
        let prev = spec_replay(len, results.drop_last());
        spec_record(len, prev.0, prev.1, results.last())
    }
}

/// The steps of a task, run in order until one fails: a failed step stops
/// the builder.
pub struct StepRun {
    pub steps: Vec<TaskStep>,
    /// How many steps have succeeded.
    pub done: usize,
    /// Whether a step has failed.
    pub failed: bool,
}

impl StepRun {
    /// The run's counters are consistent: it has not gone past its last
    /// step, and a failed run stopped at one of its steps.
    pub open spec fn wf(&self) -> bool {
        &&& self.done <= self.steps@.len()
        &&& self.failed ==> self.done < self.steps@.len()
    }

    /// A run that has not started yet.
    pub fn new(steps: Vec<TaskStep>) -> (run: StepRun)
        ensures
            run.steps@ == steps@,
            run.done == 0,
            !run.failed,
            run.wf(),
    {
        StepRun { steps, done: 0, failed: false }
    }

    /// The step to perform now, if the run is still going.
    pub fn next_step(&self) -> (step: Option<&TaskStep>)
        ensures
            !self.failed && self.done < self.steps@.len() ==> step == Some(&self.steps@[self.done as int]),
            !(!self.failed && self.done < self.steps@.len()) ==> step is None,
    {
        if !self.failed && self.done < self.steps.len() {
            Some(&self.steps[self.done])
        } else {
            None
        }
    }

    /// Records whether the current step succeeded.
    pub fn record(&mut self, ok: bool)
        ensures
            final(self).steps@ == old(self).steps@,
            (final(self).done as nat, final(self).failed)
                == spec_record(old(self).steps@.len(), old(self).done as nat, old(self).failed, ok),
            old(self).wf() ==> final(self).wf(),
    {
        if !self.failed && self.done < self.steps.len() {
            if ok {
                self.done = self.done + 1;
            } else {
                self.failed = true;
            }
        }
    }

    /// Whether the run is over.
    pub fn is_finished(&self) -> (res: bool)
        ensures
            res == (self.failed || self.done >= self.steps@.len()),
    {
        self.failed || self.done >= self.steps.len()
    }

    /// Whether every step succeeded.
    pub fn succeeded(&self) -> (res: bool)
        ensures
            res == (!self.failed && self.done >= self.steps@.len()),
    {
        !self.failed && self.done >= self.steps.len()
    }
}

/// A run of `len` steps fails exactly when one of the first `len` reports
/// is a failure; it then stops at the first failing step, every earlier one
/// having succeeded, and otherwise every step has run.
pub proof fn lemma_run_stops_at_first_failure(len: nat, results: Seq<bool>)
    ensures
        spec_replay(len, results).1 <==> exists|k: int|
            0 <= k < results.len() && k < len && !#[trigger] results[k],
        spec_replay(len, results).1 ==> {
            let d = spec_replay(len, results).0;
            &&& d < len
            &&& d < results.len()
            &&& !results[d as int]
            &&& forall|j: int| 0 <= j < d ==> #[trigger] results[j]
        },
        !spec_replay(len, results).1 ==> spec_replay(len, results).0 == (if results.len() < len {
            results.len()
        } else {
            len
        }),
    decreases results.len(),
{
    if results.len() > 0 {
        let prev = results.drop_last();
        lemma_run_stops_at_first_failure(len, prev);
        let n = (results.len() - 1) as int;
        assert forall|j: int| 0 <= j < prev.len() implies prev[j] == results[j] by {}
        if spec_replay(len, prev).1 {
            let k = choose|k: int| 0 <= k < prev.len() && k < len && !#[trigger] prev[k];
            assert(!results[k]);
        } else {
            if n < len && !results[n] {
                assert(!results[n]);
            } else {
                assert forall|k: int| 0 <= k < results.len() && k < len implies #[trigger] results[k] by {
                    if k < n {
                        assert(prev[k] == results[k]);
                        if !prev[k] {
                            assert(exists|k: int| 0 <= k < prev.len() && k < len && !#[trigger] prev[k]);
                        }
                    }
                }
            }
        }
    }
}

/// One install step per request, in the same order.
pub fn install_steps(installs: &Vec<InstallInfo>, chroot: bool) -> (steps: Vec<TaskStep>)
    ensures
        steps@.len() == installs@.len(),
        forall|i: int| 0 <= i < installs@.len() ==> is_install(#[trigger] steps@[i], installs@[i]@, chroot),
{
    let mut steps: Vec<TaskStep> = Vec::new();
    let mut i: usize = 0;
    while i < installs.len()
        invariant
            i <= installs@.len(),
            steps@.len() == i,
            forall|j: int| 0 <= j < i ==> is_install(#[trigger] steps@[j], installs@[j]@, chroot),
        decreases installs@.len() - i,
    {
        steps.push(TaskStep::Install { info: installs[i].duplicate(), chroot });
        i = i + 1;
    }
    steps
}

} // verus!
