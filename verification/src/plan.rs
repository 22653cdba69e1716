use vstd::prelude::*;
use crate::config::{BuildOption, StartMode};

verus! {

/// The tasks that make up a build.
#[derive(Clone, Copy, PartialEq, Eq, Structural, Debug)]
pub enum TaskKind {
    CheckEnv,
    PreparingDirs,
    PreparingSoftware,
    CompilingCrossToolChain,
    EnterChroot,
    AfterChroot,
    AfterChrootInstall,
    CleanUpAndSaveTempSystem,
    InstallBasicSystemSoftware,
    RemoveDebugSymbol,
    CleanUpSystem,
    Fstab,
    Inputrc,
    Network,
    Profile,
    RcSite,
    Shell,
    Sysvinit,
    Time,
    InstallRustSupportPackages,
    ConfigGrub,
}

/// A task of a plan and the positions, in the same plan, of the tasks it
/// runs after.
pub struct PlannedTask {
    pub kind: TaskKind,
    pub after: Vec<usize>,
}

impl View for PlannedTask {
    type V = (TaskKind, Seq<usize>);

    open spec fn view(&self) -> (TaskKind, Seq<usize>) {
        (self.kind, self.after@)
    }
}

/// The view of a whole plan.
pub open spec fn plan_view(plan: Seq<PlannedTask>) -> Seq<(TaskKind, Seq<usize>)> {
    plan.map_values(|t: PlannedTask| t@)
}

/// The name under which a task is registered with the task engine.
pub open spec fn spec_label(kind: TaskKind) -> Seq<char> {
    match kind {
        TaskKind::CheckEnv => "Check host env"@,
        TaskKind::PreparingDirs => "PREPARE DIRS"@,
        TaskKind::PreparingSoftware => "Prepare software"@,
        TaskKind::CompilingCrossToolChain => "Compile Toolchains"@,
        TaskKind::EnterChroot => "Enter Chroot"@,
        TaskKind::AfterChroot => "After chroot config"@,
        TaskKind::AfterChrootInstall => "Install other packages"@,
        TaskKind::CleanUpAndSaveTempSystem => "Clean up"@,
        TaskKind::InstallBasicSystemSoftware => "Install Packages"@,
        TaskKind::RemoveDebugSymbol => "Remove debug symbol"@,
        TaskKind::CleanUpSystem => "Clean up system"@,
        TaskKind::Fstab => "Config fstab"@,
        TaskKind::Inputrc => "Config inputrc"@,
        TaskKind::Network => "Config network"@,
        TaskKind::Profile => "Config profile"@,
        TaskKind::RcSite => "Config rc_site"@,
        TaskKind::Shell => "Config shell"@,
        TaskKind::Sysvinit => "Config sysvinit"@,
        TaskKind::Time => "Config time"@,
        TaskKind::InstallRustSupportPackages => "Build rust support package and kernel"@,
        TaskKind::ConfigGrub => "Install grub"@,
    }
}

impl TaskKind {
    /// The name under which the task is registered with the task engine.
    pub fn label(&self) -> (res: &'static str)
        ensures
            res@ == spec_label(*self),
    {
        match self {
            TaskKind::CheckEnv => "Check host env",
            TaskKind::PreparingDirs => "PREPARE DIRS",
            TaskKind::PreparingSoftware => "Prepare software",
            TaskKind::CompilingCrossToolChain => "Compile Toolchains",
            TaskKind::EnterChroot => "Enter Chroot",
            TaskKind::AfterChroot => "After chroot config",
            TaskKind::AfterChrootInstall => "Install other packages",
            TaskKind::CleanUpAndSaveTempSystem => "Clean up",
            TaskKind::InstallBasicSystemSoftware => "Install Packages",
            TaskKind::RemoveDebugSymbol => "Remove debug symbol",
            TaskKind::CleanUpSystem => "Clean up system",
            TaskKind::Fstab => "Config fstab",
            TaskKind::Inputrc => "Config inputrc",
            TaskKind::Network => "Config network",
            TaskKind::Profile => "Config profile",
            TaskKind::RcSite => "Config rc_site",
            TaskKind::Shell => "Config shell",
            TaskKind::Sysvinit => "Config sysvinit",
            TaskKind::Time => "Config time",
            TaskKind::InstallRustSupportPackages => "Build rust support package and kernel",
            TaskKind::ConfigGrub => "Install grub",
        }
    }
}

/// A task with no predecessor.
pub open spec fn first(kind: TaskKind) -> (TaskKind, Seq<usize>) {
    (kind, Seq::empty())
}

/// A task that runs after the task at position `pred`.
pub open spec fn after(kind: TaskKind, pred: usize) -> (TaskKind, Seq<usize>) {
    (kind, seq![pred])
}

/// The tasks that each build option runs, in the order they are registered,
/// with the positions of the tasks each one waits for.
pub open spec fn spec_plan(option: BuildOption) -> Seq<(TaskKind, Seq<usize>)> {
    match option {
        BuildOption::Build => seq![
            first(TaskKind::CheckEnv),
            after(TaskKind::PreparingDirs, 0),
            after(TaskKind::PreparingSoftware, 1),
            after(TaskKind::CompilingCrossToolChain, 2),
            after(TaskKind::EnterChroot, 3),
            after(TaskKind::AfterChroot, 4),
            after(TaskKind::AfterChrootInstall, 5),
            after(TaskKind::CleanUpAndSaveTempSystem, 6),
            after(TaskKind::InstallBasicSystemSoftware, 7),
            after(TaskKind::RemoveDebugSymbol, 8),
            after(TaskKind::Fstab, 9),
            after(TaskKind::Inputrc, 9),
            after(TaskKind::Network, 9),
            after(TaskKind::Profile, 9),
            after(TaskKind::RcSite, 9),
            after(TaskKind::Shell, 9),
            after(TaskKind::Sysvinit, 9),
            after(TaskKind::Time, 9),
            after(TaskKind::InstallRustSupportPackages, 12),
            after(TaskKind::ConfigGrub, 18),
        ],
        BuildOption::HostConfig => seq![
            first(TaskKind::CheckEnv),
            after(TaskKind::PreparingDirs, 0),
        ],
        BuildOption::PackageDownload => seq![first(TaskKind::PreparingSoftware)],
        BuildOption::BuildTempToolchains => seq![
            first(TaskKind::CheckEnv),
            after(TaskKind::CompilingCrossToolChain, 0),
            after(TaskKind::EnterChroot, 1),
            after(TaskKind::AfterChroot, 2),
            after(TaskKind::AfterChrootInstall, 3),
            after(TaskKind::CleanUpAndSaveTempSystem, 4),
        ],
        BuildOption::BuildBasePackages => seq![
            first(TaskKind::CheckEnv),
            after(TaskKind::EnterChroot, 0),
            after(TaskKind::InstallBasicSystemSoftware, 1),
        ],
        BuildOption::CleanUp => seq![first(TaskKind::RemoveDebugSymbol)],
        BuildOption::ConfigTargetSystem => seq![
            first(TaskKind::CheckEnv),
            after(TaskKind::EnterChroot, 0),
            after(TaskKind::Fstab, 1),
            after(TaskKind::Inputrc, 1),
            after(TaskKind::Network, 1),
            after(TaskKind::Profile, 1),
            after(TaskKind::RcSite, 1),
            after(TaskKind::Shell, 1),
            after(TaskKind::Sysvinit, 1),
            after(TaskKind::Time, 1),
        ],
        BuildOption::BuildRustSupportPackageAndKernel => seq![
            first(TaskKind::CheckEnv),
            after(TaskKind::EnterChroot, 0),
            after(TaskKind::InstallRustSupportPackages, 1),
        ],
        BuildOption::InstallGrub => seq![
            first(TaskKind::CheckEnv),
            after(TaskKind::EnterChroot, 0),
            after(TaskKind::ConfigGrub, 1),
        ],
    }
}

/// The tasks that building the final system's packages runs on its own.
pub open spec fn spec_base_system_plan() -> Seq<(TaskKind, Seq<usize>)> {
    seq![
        first(TaskKind::InstallBasicSystemSoftware),
        after(TaskKind::RemoveDebugSymbol, 0),
        after(TaskKind::CleanUpSystem, 1),
    ]
}

fn first_task(kind: TaskKind) -> (res: PlannedTask)
    ensures
        res@ == first(kind),
{
    PlannedTask { kind, after: Vec::new() }
}

fn after_task(kind: TaskKind, pred: usize) -> (res: PlannedTask)
    ensures
        res@ == after(kind, pred),
{
    let mut v: Vec<usize> = Vec::new();
    v.push(pred);
    assert(v@ =~= seq![pred]);
    PlannedTask { kind, after: v }
}


fn push_first(plan: &mut Vec<PlannedTask>, kind: TaskKind)
    ensures
        plan_view(final(plan)@) == plan_view(old(plan)@).push(first(kind)),
{
    plan.push(first_task(kind));
    proof {
        assert(plan_view(plan@) =~= plan_view(old(plan)@).push(first(kind)));
    }
}

fn push_after(plan: &mut Vec<PlannedTask>, kind: TaskKind, pred: usize)
    ensures
        plan_view(final(plan)@) == plan_view(old(plan)@).push(after(kind, pred)),
{
    plan.push(after_task(kind, pred));
    proof {
        assert(plan_view(plan@) =~= plan_view(old(plan)@).push(after(kind, pred)));
    }
}

/// The tasks that `option` runs, in registration order, each with the
/// positions of the tasks it runs after.
pub fn build_plan(option: BuildOption) -> (plan: Vec<PlannedTask>)
    ensures
        plan_view(plan@) == spec_plan(option),
        plan@.len() == spec_plan(option).len(),
        forall|i: int| 0 <= i < plan@.len() ==> #[trigger] plan@[i]@ == spec_plan(option)[i],
{
    let mut plan: Vec<PlannedTask> = Vec::new();
    assert(plan_view(plan@) =~= Seq::empty());
    match option {
        BuildOption::Build => {
            push_first(&mut plan, TaskKind::CheckEnv);
            push_after(&mut plan, TaskKind::PreparingDirs, 0);
            push_after(&mut plan, TaskKind::PreparingSoftware, 1);
            push_after(&mut plan, TaskKind::CompilingCrossToolChain, 2);
            push_after(&mut plan, TaskKind::EnterChroot, 3);
            push_after(&mut plan, TaskKind::AfterChroot, 4);
            push_after(&mut plan, TaskKind::AfterChrootInstall, 5);
            push_after(&mut plan, TaskKind::CleanUpAndSaveTempSystem, 6);
            push_after(&mut plan, TaskKind::InstallBasicSystemSoftware, 7);
            push_after(&mut plan, TaskKind::RemoveDebugSymbol, 8);
            push_after(&mut plan, TaskKind::Fstab, 9);
            push_after(&mut plan, TaskKind::Inputrc, 9);
            push_after(&mut plan, TaskKind::Network, 9);
            push_after(&mut plan, TaskKind::Profile, 9);
            push_after(&mut plan, TaskKind::RcSite, 9);
            push_after(&mut plan, TaskKind::Shell, 9);
            push_after(&mut plan, TaskKind::Sysvinit, 9);
            push_after(&mut plan, TaskKind::Time, 9);
            push_after(&mut plan, TaskKind::InstallRustSupportPackages, 12);
            push_after(&mut plan, TaskKind::ConfigGrub, 18);
        },
        BuildOption::HostConfig => {
            push_first(&mut plan, TaskKind::CheckEnv);
            push_after(&mut plan, TaskKind::PreparingDirs, 0);
        },
        BuildOption::PackageDownload => {
            push_first(&mut plan, TaskKind::PreparingSoftware);
        },
        BuildOption::BuildTempToolchains => {
            push_first(&mut plan, TaskKind::CheckEnv);
            push_after(&mut plan, TaskKind::CompilingCrossToolChain, 0);
            push_after(&mut plan, TaskKind::EnterChroot, 1);
            push_after(&mut plan, TaskKind::AfterChroot, 2);
            push_after(&mut plan, TaskKind::AfterChrootInstall, 3);
            push_after(&mut plan, TaskKind::CleanUpAndSaveTempSystem, 4);
        },
        BuildOption::BuildBasePackages => {
            push_first(&mut plan, TaskKind::CheckEnv);
            push_after(&mut plan, TaskKind::EnterChroot, 0);
            push_after(&mut plan, TaskKind::InstallBasicSystemSoftware, 1);
        },
        BuildOption::CleanUp => {
            push_first(&mut plan, TaskKind::RemoveDebugSymbol);
        },
        BuildOption::ConfigTargetSystem => {
            push_first(&mut plan, TaskKind::CheckEnv);
            push_after(&mut plan, TaskKind::EnterChroot, 0);
            push_after(&mut plan, TaskKind::Fstab, 1);
            push_after(&mut plan, TaskKind::Inputrc, 1);
            push_after(&mut plan, TaskKind::Network, 1);
            push_after(&mut plan, TaskKind::Profile, 1);
            push_after(&mut plan, TaskKind::RcSite, 1);
            push_after(&mut plan, TaskKind::Shell, 1);
            push_after(&mut plan, TaskKind::Sysvinit, 1);
            push_after(&mut plan, TaskKind::Time, 1);
        },
        BuildOption::BuildRustSupportPackageAndKernel => {
            push_first(&mut plan, TaskKind::CheckEnv);
            push_after(&mut plan, TaskKind::EnterChroot, 0);
            push_after(&mut plan, TaskKind::InstallRustSupportPackages, 1);
        },
        BuildOption::InstallGrub => {
            push_first(&mut plan, TaskKind::CheckEnv);
            push_after(&mut plan, TaskKind::EnterChroot, 0);
            push_after(&mut plan, TaskKind::ConfigGrub, 1);
        },
    }
    assert(plan_view(plan@) =~= spec_plan(option));
    assert forall|i: int| 0 <= i < plan@.len() implies #[trigger] plan@[i]@ == spec_plan(option)[i] by {
        assert(plan_view(plan@)[i] == plan@[i]@);
    }
    plan
}

/// The tasks handed to the task engine: the plan of `option` when the
/// builder starts, and none when it is asked to reset.
pub fn tasks_to_run(option: BuildOption, mode: StartMode) -> (tasks: Vec<PlannedTask>)
    ensures
        plan_view(tasks@) == spec_tasks_to_run(option, mode),
        tasks@.len() == spec_tasks_to_run(option, mode).len(),
        forall|i: int| 0 <= i < tasks@.len() ==> #[trigger] tasks@[i]@ == spec_tasks_to_run(option, mode)[i],
{
    match mode {
        StartMode::Start => build_plan(option),
        StartMode::Reset => {
            let tasks: Vec<PlannedTask> = Vec::new();
            assert(plan_view(tasks@) =~= Seq::empty());
            tasks
        },
    }
}

/// What `tasks_to_run` hands to the task engine.
pub open spec fn spec_tasks_to_run(option: BuildOption, mode: StartMode) -> Seq<(TaskKind, Seq<usize>)> {
    match mode {
        StartMode::Start => spec_plan(option),
        StartMode::Reset => Seq::empty(),
    }
}

/// The plan that building the final system's packages runs on its own.
pub fn base_system_plan() -> (plan: Vec<PlannedTask>)
    ensures
        plan_view(plan@) == spec_base_system_plan(),
        plan@.len() == 3,
        forall|i: int| 0 <= i < 3 ==> #[trigger] plan@[i]@ == spec_base_system_plan()[i],
{
    let mut plan: Vec<PlannedTask> = Vec::new();
    assert(plan_view(plan@) =~= Seq::empty());
    push_first(&mut plan, TaskKind::InstallBasicSystemSoftware);
    push_after(&mut plan, TaskKind::RemoveDebugSymbol, 0);
    push_after(&mut plan, TaskKind::CleanUpSystem, 1);
    assert(plan_view(plan@) =~= spec_base_system_plan());
    assert forall|i: int| 0 <= i < 3 implies #[trigger] plan@[i]@ == spec_base_system_plan()[i] by {
        assert(plan_view(plan@)[i] == plan@[i]@);
    }
    plan
}

/// Every task waits only for tasks registered before it.
pub open spec fn deps_precede(p: Seq<(TaskKind, Seq<usize>)>) -> bool {
    forall|i: int, k: int| 0 <= i < p.len() && 0 <= k < p[i].1.len() ==> #[trigger] p[i].1[k] < i
}

/// No task is registered twice.
pub open spec fn kinds_distinct(p: Seq<(TaskKind, Seq<usize>)>) -> bool {
    forall|i: int, j: int| 0 <= i < j < p.len() ==> #[trigger] p[i].0 != #[trigger] p[j].0
}

/// The first task waits for nothing and every other task waits for exactly one.
pub open spec fn single_rooted(p: Seq<(TaskKind, Seq<usize>)>) -> bool {
    &&& p.len() > 0
    &&& p[0].1.len() == 0
    &&& forall|i: int| 1 <= i < p.len() ==> #[trigger] p[i].1.len() == 1
}

/// Every build option yields a plan in which each task waits only for tasks
/// registered before it (so the engine can order them and no dependency is
/// missing), no task occurs twice, and the tasks form one tree under the
/// first task.
pub proof fn lemma_plan_well_formed(option: BuildOption)
    ensures
        deps_precede(spec_plan(option)),
        kinds_distinct(spec_plan(option)),
        single_rooted(spec_plan(option)),
{
    let p = spec_plan(option);
    assert forall|i: int, k: int| 0 <= i < p.len() && 0 <= k < p[i].1.len() implies #[trigger] p[i].1[k] < i by {
    }
    assert forall|i: int, j: int| 0 <= i < j < p.len() implies #[trigger] p[i].0 != #[trigger] p[j].0 by {
    }
}

/// The plan of every build option other than downloading packages and
/// cleaning up starts by checking the host environment.
pub proof fn lemma_plan_starts_with_env_check(option: BuildOption)
    requires
        option != BuildOption::PackageDownload,
        option != BuildOption::CleanUp,
    ensures
        spec_plan(option)[0].0 == TaskKind::CheckEnv,
{
}

/// A full build runs every task of the other build options.
pub proof fn lemma_full_build_covers_all_steps(option: BuildOption, i: int)
    requires
        0 <= i < spec_plan(option).len(),
    ensures
        exists|j: int| 0 <= j < spec_plan(BuildOption::Build).len()
            && #[trigger] spec_plan(BuildOption::Build)[j].0 == spec_plan(option)[i].0,
{
    let kind = spec_plan(option)[i].0;
    let j = full_build_position(kind);
    assert(spec_plan(BuildOption::Build)[j].0 == kind);
}

/// Where a task stands in the plan of a full build (`-1` when it has no place there).
pub open spec fn full_build_position(kind: TaskKind) -> int {
    match kind {
        TaskKind::CheckEnv => 0,
        TaskKind::PreparingDirs => 1,
        TaskKind::PreparingSoftware => 2,
        TaskKind::CompilingCrossToolChain => 3,
        TaskKind::EnterChroot => 4,
        TaskKind::AfterChroot => 5,
        TaskKind::AfterChrootInstall => 6,
        TaskKind::CleanUpAndSaveTempSystem => 7,
        TaskKind::InstallBasicSystemSoftware => 8,
        TaskKind::RemoveDebugSymbol => 9,
        TaskKind::Fstab => 10,
        TaskKind::Inputrc => 11,
        TaskKind::Network => 12,
        TaskKind::Profile => 13,
        TaskKind::RcSite => 14,
        TaskKind::Shell => 15,
        TaskKind::Sysvinit => 16,
        TaskKind::Time => 17,
        TaskKind::InstallRustSupportPackages => 18,
        TaskKind::ConfigGrub => 19,
        TaskKind::CleanUpSystem => -1,
    }
}

/// Building the final system's packages alone installs, strips and cleans
/// up in that order.
pub proof fn lemma_base_system_plan_well_formed()
    ensures
        deps_precede(spec_base_system_plan()),
        kinds_distinct(spec_base_system_plan()),
        single_rooted(spec_base_system_plan()),
{
}

/// The build options in the order a build is carried out step by step.
pub open spec fn step_by_step_order() -> Seq<BuildOption> {
    seq![
        BuildOption::HostConfig,
        BuildOption::PackageDownload,
        BuildOption::BuildTempToolchains,
        BuildOption::BuildBasePackages,
        BuildOption::ConfigTargetSystem,
        BuildOption::BuildRustSupportPackageAndKernel,
        BuildOption::InstallGrub,
    ]
}

/// Tasks that every step-by-step option repeats for itself.
pub open spec fn is_shared_task(kind: TaskKind) -> bool {
    kind == TaskKind::CheckEnv || kind == TaskKind::EnterChroot
}

/// A full build does the work of the step-by-step options in the same order
/// as running them one after the other: apart from checking the environment
/// and entering the new root, which each option does for itself, every task
/// of an earlier option comes before every task of a later one.
pub proof fn lemma_full_build_follows_step_order(a: int, b: int, i: int, j: int)
    requires
        0 <= a < b < step_by_step_order().len(),
        0 <= i < spec_plan(step_by_step_order()[a]).len(),
        0 <= j < spec_plan(step_by_step_order()[b]).len(),
        !is_shared_task(spec_plan(step_by_step_order()[a])[i].0),
        !is_shared_task(spec_plan(step_by_step_order()[b])[j].0),
    ensures
        0 <= full_build_position(spec_plan(step_by_step_order()[a])[i].0)
            < full_build_position(spec_plan(step_by_step_order()[b])[j].0)
            < spec_plan(BuildOption::Build).len(),
        spec_plan(BuildOption::Build)[full_build_position(spec_plan(step_by_step_order()[a])[i].0)].0
            == spec_plan(step_by_step_order()[a])[i].0,
        spec_plan(BuildOption::Build)[full_build_position(spec_plan(step_by_step_order()[b])[j].0)].0
            == spec_plan(step_by_step_order()[b])[j].0,
{
}

/// The kind of the task that the task at position `i` waits for (its first
/// dependency).
pub open spec fn predecessor_kind(p: Seq<(TaskKind, Seq<usize>)>, i: int) -> TaskKind {
    p[p[i].1[0] as int].0
}

/// A full build is one chain up to stripping debug symbols: checking the
/// host, preparing directories, downloading, compiling the cross tool chain,
/// entering the new root, preparing it, installing the remaining temporary
/// tools, cleaning up, installing the final system and stripping it, each
/// waiting for the one before. The eight configuration tasks then wait for
/// the stripping, the Rust support packages wait for the network
/// configuration, and the boot loader waits for the Rust support packages.
pub proof fn lemma_full_build_dependencies()
    ensures
        ({
            let p = spec_plan(BuildOption::Build);
            &&& p.len() == 20
            &&& p[0].1.len() == 0
            &&& forall|i: int| 1 <= i <= 9 ==> #[trigger] p[i].1 == seq![(i - 1) as usize]
            &&& forall|i: int| 10 <= i <= 17 ==> #[trigger] p[i].1 == seq![9usize]
            &&& p[18].1 == seq![12usize]
            &&& p[19].1 == seq![18usize]
            &&& p[0].0 == TaskKind::CheckEnv
            &&& p[1].0 == TaskKind::PreparingDirs
            &&& p[2].0 == TaskKind::PreparingSoftware
            &&& p[3].0 == TaskKind::CompilingCrossToolChain
            &&& p[4].0 == TaskKind::EnterChroot
            &&& p[5].0 == TaskKind::AfterChroot
            &&& p[6].0 == TaskKind::AfterChrootInstall
            &&& p[7].0 == TaskKind::CleanUpAndSaveTempSystem
            &&& p[8].0 == TaskKind::InstallBasicSystemSoftware
            &&& p[9].0 == TaskKind::RemoveDebugSymbol
            &&& p[12].0 == TaskKind::Network
            &&& p[18].0 == TaskKind::InstallRustSupportPackages
            &&& p[19].0 == TaskKind::ConfigGrub
        }),
{
    let p = spec_plan(BuildOption::Build);
    assert forall|i: int| 1 <= i <= 9 implies #[trigger] p[i].1 == seq![(i - 1) as usize] by {
        assert(p[i].1 =~= seq![(i - 1) as usize]);
    }
    assert forall|i: int| 10 <= i <= 17 implies #[trigger] p[i].1 == seq![9usize] by {
        assert(p[i].1 =~= seq![9usize]);
    }
}

/// Whenever a plan enters the new root, it does so only after the cross tool
/// chain has been compiled if the plan compiles it, and otherwise right after
/// checking the host environment.
pub proof fn lemma_chroot_waits_for_tool_chain(option: BuildOption, i: int)
    requires
        0 <= i < spec_plan(option).len(),
        spec_plan(option)[i].0 == TaskKind::EnterChroot,
    ensures
        spec_plan(option)[i].1.len() == 1,
        spec_plan(option)[i].1[0] < i,
        (exists|j: int| 0 <= j < spec_plan(option).len()
            && #[trigger] spec_plan(option)[j].0 == TaskKind::CompilingCrossToolChain)
            ==> predecessor_kind(spec_plan(option), i) == TaskKind::CompilingCrossToolChain,
        (forall|j: int| 0 <= j < spec_plan(option).len()
            ==> #[trigger] spec_plan(option)[j].0 != TaskKind::CompilingCrossToolChain)
            ==> predecessor_kind(spec_plan(option), i) == TaskKind::CheckEnv,
{
    let p = spec_plan(option);
    if exists|j: int| 0 <= j < p.len() && #[trigger] p[j].0 == TaskKind::CompilingCrossToolChain {
        let j = choose|j: int| 0 <= j < p.len() && #[trigger] p[j].0 == TaskKind::CompilingCrossToolChain;
        assert(option == BuildOption::Build || option == BuildOption::BuildTempToolchains);
    } else {
        if option == BuildOption::Build {
            assert(p[3].0 == TaskKind::CompilingCrossToolChain);
        }
        if option == BuildOption::BuildTempToolchains {
            assert(p[1].0 == TaskKind::CompilingCrossToolChain);
        }
    }
}

/// Building the temporary tool chain on its own is one chain: each task
/// waits for the one registered just before it.
pub proof fn lemma_temp_toolchain_is_a_chain()
    ensures
        forall|i: int| 1 <= i < spec_plan(BuildOption::BuildTempToolchains).len()
            ==> #[trigger] spec_plan(BuildOption::BuildTempToolchains)[i].1 == seq![(i - 1) as usize],
{
    let p = spec_plan(BuildOption::BuildTempToolchains);
    assert forall|i: int| 1 <= i < p.len() implies #[trigger] p[i].1 == seq![(i - 1) as usize] by {
        assert(p[i].1 =~= seq![(i - 1) as usize]);
    }
}

} // verus!
