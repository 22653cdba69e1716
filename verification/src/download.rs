use vstd::prelude::*;
use vstd::string::*;

verus! {

/// How many times a download is tried before the file counts as missing.
pub const MAX_DOWNLOAD_ATTEMPTS: u8 = 5;

/// A file to fetch.
pub struct DownloadItem {
    /// The name its status is recorded under.
    pub name: String,
    /// Pattern that finds an earlier copy of the file.
    pub pattern: String,
    /// Where the file comes from.
    pub url: String,
    /// The directory it is saved into.
    pub dir: String,
    /// Whether an earlier partial copy is removed before each attempt.
    pub remove_partial: bool,
}

/// Where the download of the current file stands.
#[derive(Clone, Copy, PartialEq, Eq, Structural, Debug)]
pub enum DownloadPhase {
    /// Looking for an earlier copy.
    Check,
    /// Removing a partial copy before attempt number `attempts + 1`.
    RemovePartial { attempts: u8 },
    /// Making attempt number `attempts + 1`.
    Fetch { attempts: u8 },
}

/// What the outside world reports back to a download run.
pub enum DownloadEvent {
    /// Whether an earlier copy exists.
    Checked(bool),
    /// The partial copy has been removed.
    Removed,
    /// How the download command ended: `Ok(true)` when it succeeded,
    /// `Ok(false)` when it failed, `Err` when it could not be started.
    Fetched(Result<bool, String>),
}

/// What a download run asks to be done next.
pub enum DownloadAction {
    /// Search for files matching `pattern` and report whether one exists.
    CheckExists { pattern: String },
    /// Remove the first file matching `pattern`, if any.
    RemovePartial { pattern: String },
    /// Run `command` with the shell and report how it ended.
    Download { command: String },
    /// Every file has been handled; `failed` tells whether one is missing.
    Finish { failed: bool },
}

/// The shell command that fetches `url` into `target_path`.
pub open spec fn spec_download_command(target_path: Seq<char>, url: Seq<char>) -> Seq<char> {
    "wget -P "@ + target_path + " "@ + url
}

/// The shell command that fetches `url` into `target_path`.
pub fn download_command(target_path: &str, url: &str) -> (cmd: String)
    ensures
        cmd@ == spec_download_command(target_path@, url@),
{
    String::from_str("wget -P ").concat(target_path).concat(" ").concat(url)
}

/// A file's recorded status counts: no later record has the same name.
pub open spec fn is_final_record(statuses: Seq<(Seq<char>, bool)>, i: int) -> bool {
    forall|j: int| i < j < statuses.len() ==> #[trigger] statuses[j].0 != statuses[i].0
}

/// Some file's last recorded status is a failure.
pub open spec fn spec_some_failed(statuses: Seq<(Seq<char>, bool)>) -> bool {
    exists|i: int| 0 <= i < statuses.len() && !(#[trigger] statuses[i]).1 && is_final_record(statuses, i)
}

/// The recorded statuses as character sequences.
pub open spec fn statuses_view(statuses: Seq<(String, bool)>) -> Seq<(Seq<char>, bool)> {
    statuses.map_values(|s: (String, bool)| (s.0@, s.1))
}

/// The state of a download run.
pub struct DownloadState {
    pub current: nat,
    pub phase: DownloadPhase,
    pub statuses: Seq<(Seq<char>, bool)>,
}

/// The state after the current file is done, with `statuses` as recorded.
pub open spec fn spec_next_file(current: nat, statuses: Seq<(Seq<char>, bool)>) -> DownloadState {
    DownloadState { current: current + 1, phase: DownloadPhase::Check, statuses }
}

/// How a download run of the files `items` moves on when `event` comes in;
/// an event that does not answer the current action changes nothing.
pub open spec fn spec_next_download(items: Seq<DownloadItem>, s: DownloadState, event: DownloadEvent) -> DownloadState {
    if s.current >= items.len() {
        s
    } else {
        let item = items[s.current as int];
        match (s.phase, event) {
            (DownloadPhase::Check, DownloadEvent::Checked(exists)) => if exists {
                spec_next_file(s.current, s.statuses)
            } else if item.remove_partial {
                DownloadState { phase: DownloadPhase::RemovePartial { attempts: 0 }, ..s }
            } else {
                DownloadState { phase: DownloadPhase::Fetch { attempts: 0 }, ..s }
            },
            (DownloadPhase::RemovePartial { attempts }, DownloadEvent::Removed) => DownloadState {
                phase: DownloadPhase::Fetch { attempts },
                ..s
            },
            (DownloadPhase::Fetch { attempts }, DownloadEvent::Fetched(r)) => if r == Ok::<bool, String>(true) {
                spec_next_file(s.current, s.statuses.push((item.name@, true)))
            } else if attempts + 1 >= MAX_DOWNLOAD_ATTEMPTS {
                spec_next_file(s.current, s.statuses.push((item.name@, false)))
            } else if item.remove_partial {
                DownloadState { phase: DownloadPhase::RemovePartial { attempts: (attempts + 1) as u8 }, ..s }
            } else {
                DownloadState { phase: DownloadPhase::Fetch { attempts: (attempts + 1) as u8 }, ..s }
            },
            _ => s,
        }
    }
}

/// Fetches a list of files one after the other: a file already present is
/// skipped; otherwise its download is tried up to five times, removing a
/// partial copy first when asked to, and its success or failure is recorded.
pub struct DownloadRun {
    pub items: Vec<DownloadItem>,
    pub current: usize,
    pub phase: DownloadPhase,
    /// Every recorded status, in order.
    pub statuses: Vec<(String, bool)>,
}

impl DownloadRun {
    /// The state of the run.
    pub open spec fn state(&self) -> DownloadState {
        DownloadState { current: self.current as nat, phase: self.phase, statuses: statuses_view(self.statuses@) }
    }

    /// The run's counters are in range: attempts stay below the limit and
    /// the current file is at most one past the last.
    pub open spec fn wf(&self) -> bool {
        &&& self.current <= self.items@.len()
        &&& match self.phase {
            DownloadPhase::Check => true,
            DownloadPhase::RemovePartial { attempts } => attempts < MAX_DOWNLOAD_ATTEMPTS,
            DownloadPhase::Fetch { attempts } => attempts < MAX_DOWNLOAD_ATTEMPTS,
        }
    }

    /// A run over `items` that has not started yet.
    pub fn new(items: Vec<DownloadItem>) -> (run: DownloadRun)
        ensures
            run.items@ == items@,
            run.current == 0,
            run.phase == DownloadPhase::Check,
            run.statuses@.len() == 0,
            run.wf(),
    {
        DownloadRun { items, current: 0, phase: DownloadPhase::Check, statuses: Vec::new() }
    }

    /// Whether some file's last recorded status is a failure.
    pub fn some_failed(&self) -> (res: bool)
        ensures
            res == spec_some_failed(statuses_view(self.statuses@)),
    {
        let ghost st = statuses_view(self.statuses@);
        let n = self.statuses.len();
        let mut i: usize = 0;
        while i < n
            invariant
                n == self.statuses@.len(),
                st == statuses_view(self.statuses@),
                i <= n,
                forall|k: int| 0 <= k < i ==> !(!(#[trigger] st[k]).1 && is_final_record(st, k)),
            decreases n - i,
        {
            if !self.statuses[i].1 {
                let mut later = false;
                let mut j: usize = i + 1;
                while j < n
                    invariant
                        n == self.statuses@.len(),
                        st == statuses_view(self.statuses@),
                        i < n,
                        i + 1 <= j <= n,
                        !later ==> forall|m: int| i < m < j ==> #[trigger] st[m].0 != st[i as int].0,
                        later ==> !is_final_record(st, i as int),
                    decreases n - j,
                {
                    if !later && self.statuses[j].0 == self.statuses[i].0 {
                        later = true;
                        assert(st[j as int].0 == st[i as int].0);
                    }
                    j = j + 1;
                }
                if !later {
                    assert(!st[i as int].1 && is_final_record(st, i as int));
                    return true;
                }
            }
            i = i + 1;
        }
        false
    }

    /// What the run asks to be done now.
    pub fn action(&self) -> (act: DownloadAction)
        ensures
            self.current >= self.items@.len() ==> (act matches DownloadAction::Finish { failed }
                && failed == spec_some_failed(statuses_view(self.statuses@))),
            self.current < self.items@.len() && self.phase == DownloadPhase::Check ==> (act matches DownloadAction::CheckExists { pattern }
                && pattern@ == self.items@[self.current as int].pattern@),
            self.current < self.items@.len() && self.phase is RemovePartial ==> (act matches DownloadAction::RemovePartial { pattern }
                && pattern@ == self.items@[self.current as int].pattern@),
            self.current < self.items@.len() && self.phase is Fetch ==> (act matches DownloadAction::Download { command }
                && command@ == spec_download_command(
                    self.items@[self.current as int].dir@,
                    self.items@[self.current as int].url@,
                )),
    {
        if self.current >= self.items.len() {
            return DownloadAction::Finish { failed: self.some_failed() };
        }
        let item = &self.items[self.current];
        match self.phase {
            DownloadPhase::Check => DownloadAction::CheckExists { pattern: item.pattern.clone() },
            DownloadPhase::RemovePartial { .. } => DownloadAction::RemovePartial { pattern: item.pattern.clone() },
            DownloadPhase::Fetch { .. } => DownloadAction::Download {
                command: download_command(item.dir.as_str(), item.url.as_str()),
            },
        }
    }

    /// Moves the run on with `event`, the answer to its last action.
    pub fn advance(&mut self, event: DownloadEvent)
        ensures
            old(self).wf() ==> final(self).wf(),
            final(self).items@ == old(self).items@,
            final(self).state() == spec_next_download(old(self).items@, old(self).state(), event),
    {
        if self.current >= self.items.len() {
            return;
        }
        let ghost st0 = self.state();
        let remove_partial = self.items[self.current].remove_partial;
        match (self.phase, event) {
            (DownloadPhase::Check, DownloadEvent::Checked(exists)) => {
                if exists {
                    self.current = self.current + 1;
                } else if remove_partial {
                    self.phase = DownloadPhase::RemovePartial { attempts: 0 };
                } else {
                    self.phase = DownloadPhase::Fetch { attempts: 0 };
                }
            },
            (DownloadPhase::RemovePartial { attempts }, DownloadEvent::Removed) => {
                self.phase = DownloadPhase::Fetch { attempts };
            },
            (DownloadPhase::Fetch { attempts }, DownloadEvent::Fetched(r)) => {
                let ok = match r {
                    Ok(b) => b,
                    Err(_) => false,
                };
                assert(ok == (r == Ok::<bool, String>(true)));
                if ok {
                    let name = self.items[self.current].name.clone();
                    self.statuses.push((name, true));
                    assert(statuses_view(self.statuses@) =~= st0.statuses.push((self.items@[self.current as int].name@, true)));
                    self.current = self.current + 1;
                    self.phase = DownloadPhase::Check;
                } else if attempts >= MAX_DOWNLOAD_ATTEMPTS - 1 {
                    let name = self.items[self.current].name.clone();
                    self.statuses.push((name, false));
                    assert(statuses_view(self.statuses@) =~= st0.statuses.push((self.items@[self.current as int].name@, false)));
                    self.current = self.current + 1;
                    self.phase = DownloadPhase::Check;
                } else if remove_partial {
                    self.phase = DownloadPhase::RemovePartial { attempts: attempts + 1 };
                } else {
                    self.phase = DownloadPhase::Fetch { attempts: attempts + 1 };
                }
            },
            _ => {},
        }
    }
}

/// How far the current file has come.
pub open spec fn download_rank(p: DownloadPhase) -> int {
    match p {
        DownloadPhase::Check => 0,
        DownloadPhase::RemovePartial { attempts } => 1 + 2 * attempts,
        DownloadPhase::Fetch { attempts } => 2 + 2 * attempts,
    }
}

/// Every event either leaves a download run where it is, moves it to the
/// next file, or moves the current file forward; a file never takes more
/// than eleven answered actions, since attempts stay below five.
pub proof fn lemma_download_moves_forward(items: Seq<DownloadItem>, s: DownloadState, event: DownloadEvent)
    ensures
        ({
            let n = spec_next_download(items, s, event);
            ||| n == s
            ||| n.current == s.current + 1 && n.phase == DownloadPhase::Check
            ||| n.current == s.current && download_rank(n.phase) > download_rank(s.phase)
        }),
        download_rank(s.phase) <= 10 ==> download_rank(spec_next_download(items, s, event).phase) <= 10,
{
}

/// A file found already present is skipped: nothing is downloaded and no
/// status is recorded for it.
pub proof fn lemma_present_file_is_skipped(items: Seq<DownloadItem>, s: DownloadState)
    requires
        s.current < items.len(),
        s.phase == DownloadPhase::Check,
    ensures
        spec_next_download(items, s, DownloadEvent::Checked(true)) == spec_next_file(s.current, s.statuses),
{
}

/// A successful download records the file as present and moves on.
pub proof fn lemma_success_is_recorded(items: Seq<DownloadItem>, s: DownloadState, attempts: u8)
    requires
        s.current < items.len(),
        s.phase == (DownloadPhase::Fetch { attempts }),
    ensures
        spec_next_download(items, s, DownloadEvent::Fetched(Ok(true)))
            == spec_next_file(s.current, s.statuses.push((items[s.current as int].name@, true))),
{
}

/// The fifth failed attempt records the file as missing and moves on;
/// earlier failed attempts retry the same file.
pub proof fn lemma_fifth_failure_gives_up(items: Seq<DownloadItem>, s: DownloadState, attempts: u8, r: Result<bool, String>)
    requires
        s.current < items.len(),
        s.phase == (DownloadPhase::Fetch { attempts }),
        attempts < MAX_DOWNLOAD_ATTEMPTS,
        r != Ok::<bool, String>(true),
    ensures
        attempts + 1 == MAX_DOWNLOAD_ATTEMPTS ==> spec_next_download(items, s, DownloadEvent::Fetched(r))
            == spec_next_file(s.current, s.statuses.push((items[s.current as int].name@, false))),
        attempts + 1 < MAX_DOWNLOAD_ATTEMPTS ==> ({
            let n = spec_next_download(items, s, DownloadEvent::Fetched(r));
            &&& n.current == s.current
            &&& n.statuses == s.statuses
            &&& n.phase == (if items[s.current as int].remove_partial {
                DownloadPhase::RemovePartial { attempts: (attempts + 1) as u8 }
            } else {
                DownloadPhase::Fetch { attempts: (attempts + 1) as u8 }
            })
        }),
{
}

} // verus!
