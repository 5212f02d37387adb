//! State of the run-history pane: the listed runs and the selection, the
//! rerun/stop button model, the pending action and the last settings I/O
//! result. Drawing and the settings file itself are outside this module.
use vstd::prelude::*;
use vstd::string::*;

use crate::history::{copy_records, record_view, records_view, RunOutcome, RunRecord};
use crate::driver::opt_view;
use crate::text::{dec, join_seqs, join_strings, owned, push_dec, views};

verus! {

/// Log lines shown for the selected run.
pub const LOG_TAIL_LINES: usize = 20;

/// Which of the rerun and stop buttons are enabled.
#[derive(Debug, Clone, Copy, PartialEq, Eq)]
pub struct ButtonState {
    /// Whether a run is in progress.
    pub running: bool,
}

impl ButtonState {
    /// Rerun is enabled only while nothing runs.
    pub fn rerun_enabled(self) -> (r: bool)
        ensures
            r == !self.running,
    {
        !self.running
    }

    /// Stop is enabled only while a run is in progress.
    pub fn stop_enabled(self) -> (r: bool)
        ensures
            r == self.running,
    {
        self.running
    }
}

/// A request the pane hands to the runner.
#[derive(Debug, Clone, Copy, PartialEq, Eq)]
pub enum HistoryAction {
    /// Run the last strategy again.
    Rerun,
    /// Stop the current run.
    Stop,
    /// Save the settings.
    SaveSettings,
    /// Load the settings.
    LoadSettings,
}

/// The last settings I/O result shown to the user.
#[derive(Debug, Clone, PartialEq, Eq)]
pub enum SettingsStatus {
    /// Succeeded on this file.
    Succeeded(String),
    /// Failed, with the message shown.
    Failed(String),
    /// Nothing done yet.
    NoResult,
}

/// Status as plain values: `Some(Ok(path))` on success, `Some(Err(message))` on failure, or `None`.
pub open spec fn status_view(s: SettingsStatus) -> Option<Result<Seq<char>, Seq<char>>> {
    match s {
        SettingsStatus::Succeeded(p) => Some(Ok(p@)),
        SettingsStatus::Failed(m) => Some(Err(m@)),
        SettingsStatus::NoResult => None,
    }
}

/// The selection after the listed runs are replaced by `n` runs: a selection
/// still in range stays, otherwise the newest run (when there is one).
pub open spec fn reselect(selected: Option<usize>, n: nat) -> Option<usize> {
    match selected {
        Some(i) => if i < n {
            Some(i)
        } else if n > 0 {
            Some(0usize)
        } else {
            None
        },
        None => if n > 0 {
            Some(0usize)
        } else {
            None
        },
    }
}

/// The message shown when saving the settings failed with `error`.
pub open spec fn save_failure_spec(error: Seq<char>) -> Seq<char> {
    "設定保存失敗: "@ + error
}

/// State of the history pane.
pub struct HistoryPanel {
    entries: Vec<RunRecord>,
    selected: Option<usize>,
    buttons: ButtonState,
    pending_action: Option<HistoryAction>,
    settings_status: SettingsStatus,
}

impl HistoryPanel {
    /// The listed runs as plain values, newest first.
    pub closed spec fn listed(&self) -> Seq<(u64, Seq<char>, RunOutcome, Option<i32>, Seq<Seq<char>>)> {
        records_view(self.entries@)
    }

    /// The index of the selected run.
    pub closed spec fn selection(&self) -> Option<usize> {
        self.selected
    }

    /// The button model.
    pub closed spec fn button_state(&self) -> ButtonState {
        self.buttons
    }

    /// The pending action.
    pub closed spec fn pending(&self) -> Option<HistoryAction> {
        self.pending_action
    }

    /// The last settings I/O result.
    pub closed spec fn status(&self) -> Option<Result<Seq<char>, Seq<char>>> {
        status_view(self.settings_status)
    }

    /// Pane invariant: a selection always points at a listed run.
    pub closed spec fn wf(&self) -> bool {
        match self.selected {
            Some(i) => i < self.entries@.len(),
            None => true,
        }
    }

    /// An empty pane: no run, no selection, nothing running, no pending
    /// action, no settings result.
    pub fn new() -> (p: HistoryPanel)
        ensures
            p.wf(),
            p.listed().len() == 0,
            p.selection() is None,
            p.button_state() == (ButtonState { running: false }),
            p.pending() is None,
            p.status() is None,
    {
        HistoryPanel {
            entries: Vec::new(),
            selected: None,
            buttons: ButtonState { running: false },
            pending_action: None,
            settings_status: SettingsStatus::NoResult,
        }
    }

    /// Lists `records` (newest first); a selection still in range stays,
    /// otherwise the newest run is selected (none when the list is empty).
    pub fn refresh_from(&mut self, records: &[RunRecord])
        ensures
            final(self).wf(),
            final(self).listed() == records_view(records@),
            final(self).selection() == reselect(old(self).selection(), records@.len()),
            final(self).button_state() == old(self).button_state(),
            final(self).pending() == old(self).pending(),
            final(self).status() == old(self).status(),
    {
        self.entries = copy_records(records);
        let n = self.entries.len();
        let keep = match self.selected {
            Some(i) => i < n,
            None => false,
        };
        if !keep {
            self.selected = if n > 0 {
                Some(0)
            } else {
                None
            };
        }
    }

    /// The listed runs, newest first.
    pub fn entries(&self) -> (r: &[RunRecord])
        ensures
            records_view(r@) == self.listed(),
    {
        self.entries.as_slice()
    }

    /// The selected run, if any.
    pub fn selected(&self) -> (r: Option<&RunRecord>)
        ensures
            match self.selection() {
                Some(i) => if i < self.listed().len() {
                    r is Some && record_view(*r.unwrap()) == self.listed()[i as int]
                } else {
                    r is None
                },
                None => r is None,
            },
    {
        match self.selected {
            Some(i) => if i < self.entries.len() {
                Some(&self.entries[i])
            } else {
                None
            },
            None => None,
        }
    }

    /// Selects the run at `index`; an index out of range is ignored.
    pub fn select(&mut self, index: usize)
        requires
            old(self).wf(),
        ensures
            final(self).wf(),
            final(self).listed() == old(self).listed(),
            final(self).selection() == if index < old(self).listed().len() {
                Some(index)
            } else {
                old(self).selection()
            },
            final(self).button_state() == old(self).button_state(),
            final(self).pending() == old(self).pending(),
            final(self).status() == old(self).status(),
    {
        if index < self.entries.len() {
            self.selected = Some(index);
        }
    }

    /// Records whether a run is in progress.
    pub fn set_running(&mut self, running: bool)
        requires
            old(self).wf(),
        ensures
            final(self).wf(),
            final(self).button_state() == (ButtonState { running }),
            final(self).listed() == old(self).listed(),
            final(self).selection() == old(self).selection(),
            final(self).pending() == old(self).pending(),
            final(self).status() == old(self).status(),
    {
        self.buttons.running = running;
    }

    /// The button model.
    pub fn buttons(&self) -> (r: ButtonState)
        ensures
            r == self.button_state(),
    {
        self.buttons
    }

    /// Takes the pending action, leaving none.
    pub fn take_action(&mut self) -> (r: Option<HistoryAction>)
        requires
            old(self).wf(),
        ensures
            r == old(self).pending(),
            final(self).pending() is None,
            final(self).wf(),
            final(self).listed() == old(self).listed(),
            final(self).selection() == old(self).selection(),
            final(self).button_state() == old(self).button_state(),
            final(self).status() == old(self).status(),
    {
        let r = self.pending_action;
        self.pending_action = None;
        r
    }

    /// The last settings I/O result.
    pub fn settings_status(&self) -> (r: &SettingsStatus)
        ensures
            status_view(*r) == self.status(),
    {
        &self.settings_status
    }

    /// Records an action request, replacing any earlier one.
    pub fn request(&mut self, action: HistoryAction)
        requires
            old(self).wf(),
        ensures
            final(self).pending() == Some(action),
            final(self).wf(),
            final(self).listed() == old(self).listed(),
            final(self).selection() == old(self).selection(),
            final(self).button_state() == old(self).button_state(),
            final(self).status() == old(self).status(),
    {
        self.pending_action = Some(action);
    }

    /// Records the outcome of saving the settings to `path`: the path on
    /// success, the failure message otherwise (the pane keeps working).
    pub fn save_settings(&mut self, path: &str, outcome: Result<(), String>)
        requires
            old(self).wf(),
        ensures
            final(self).status() == match outcome {
                Ok(()) => Some(Ok(path@)),
                Err(e) => Some(Err(save_failure_spec(e@))),
            },
            final(self).wf(),
            final(self).listed() == old(self).listed(),
            final(self).selection() == old(self).selection(),
            final(self).button_state() == old(self).button_state(),
            final(self).pending() == old(self).pending(),
    {
        self.settings_status = match outcome {
            Ok(()) => SettingsStatus::Succeeded(owned(path)),
            Err(e) => {
                let mut m = String::from_str("設定保存失敗: ");
                m.append(e.as_str());
                SettingsStatus::Failed(m)
            },
        };
    }

    /// Records that the settings at `path` were read: a missing file counts
    /// as a first start, not as an error. Hands back what was loaded
    /// (`None` when the defaults apply).
    pub fn load_settings<S>(&mut self, path: &str, loaded: Option<S>) -> (r: Option<S>)
        requires
            old(self).wf(),
        ensures
            r == loaded,
            final(self).status() == Some(Ok::<Seq<char>, Seq<char>>(path@)),
            final(self).wf(),
            final(self).listed() == old(self).listed(),
            final(self).selection() == old(self).selection(),
            final(self).button_state() == old(self).button_state(),
            final(self).pending() == old(self).pending(),
    {
        self.settings_status = SettingsStatus::Succeeded(owned(path));
        loaded
    }
}

impl Default for HistoryPanel {
    fn default() -> (p: HistoryPanel)
        ensures
            p.wf(),
            p.listed().len() == 0,
            p.selection() is None,
            p.button_state() == (ButtonState { running: false }),
            p.pending() is None,
            p.status() is None,
    {
        HistoryPanel::new()
    }
}

/// The word shown for an outcome.
pub open spec fn outcome_word(o: RunOutcome) -> Seq<char> {
    match o {
        RunOutcome::Success => "完了"@,
        RunOutcome::Failed => "異常終了"@,
        RunOutcome::Cancelled => "中止"@,
    }
}

/// The list label of a run: `@<start> <strategy> [<outcome>]`.
pub open spec fn record_label_spec(started: u64, strategy: Seq<char>, outcome: RunOutcome) -> Seq<char> {
    "@"@ + dec(started as nat) + " "@ + strategy + " ["@ + outcome_word(outcome) + "]"@
}

/// The list label of a run (see [`record_label_spec`]).
pub fn record_label(r: &RunRecord) -> (s: String)
    ensures
        s@ == record_label_spec(r.started_at_unix, r.strategy@, r.outcome),
{
    let mut s = String::from_str("@");
    push_dec(&mut s, r.started_at_unix);
    s.append(" ");
    s.append(r.strategy.as_str());
    s.append(" [");
    match r.outcome {
        RunOutcome::Success => s.append("完了"),
        RunOutcome::Failed => s.append("異常終了"),
        RunOutcome::Cancelled => s.append("中止"),
    }
    s.append("]");
    s
}

/// The heading above a run's log preview: `「<strategy>」のログ末尾:`.
pub fn log_preview_heading(r: &RunRecord) -> (s: String)
    ensures
        s@ == "「"@ + r.strategy@ + "」のログ末尾:"@,
{
    let mut s = String::from_str("「");
    s.append(r.strategy.as_str());
    s.append("」のログ末尾:");
    s
}

/// Where the preview of `n` log lines starts: the last
/// [`LOG_TAIL_LINES`] are shown.
pub open spec fn preview_start(n: nat) -> int {
    if n > LOG_TAIL_LINES {
        n - LOG_TAIL_LINES
    } else {
        0
    }
}

/// The log preview of a run: its last [`LOG_TAIL_LINES`] lines (oldest
/// first), one per line.
pub fn log_preview(r: &RunRecord) -> (s: String)
    ensures
        s@ == join_seqs(views(r.log_tail@).skip(preview_start(r.log_tail@.len())), "\n"@),
{
    let n = r.log_tail.len();
    let start = if n > LOG_TAIL_LINES {
        n - LOG_TAIL_LINES
    } else {
        0
    };
    let mut shown: Vec<String> = Vec::new();
    let mut i: usize = start;
    while i < n
        invariant
            start <= i <= n,
            n == r.log_tail@.len(),
            start == preview_start(n as nat),
            views(shown@) == views(r.log_tail@).subrange(start as int, i as int),
        decreases n - i,
    {
        shown.push(r.log_tail[i].clone());
        assert(views(r.log_tail@).subrange(start as int, i + 1) =~= views(r.log_tail@).subrange(
            start as int,
            i as int,
        ).push(r.log_tail@[i as int]@));
        i = i + 1;
    }
    assert(views(r.log_tail@).subrange(start as int, n as int) =~= views(r.log_tail@).skip(start as int));
    join_strings(&shown, "\n")
}

/// The line shown for the last settings result: `設定: <path>` after a
/// success, the message after a failure, nothing before either.
pub fn settings_status_line(status: &SettingsStatus) -> (r: Option<String>)
    ensures
        opt_view(r) == match status_view(*status) {
            Some(Ok(p)) => Some("設定: "@ + p),
            Some(Err(m)) => Some(m),
            None => None,
        },
{
    match status {
        SettingsStatus::Succeeded(p) => {
            let mut s = String::from_str("設定: ");
            s.append(p.as_str());
            Some(s)
        },
        SettingsStatus::Failed(m) => Some(m.clone()),
        SettingsStatus::NoResult => None,
    }
}

/// Whatever the panel held, after listing some runs any selection points at
/// a listed run, and listing runs never clears a selection still in range.
pub proof fn law_refresh_keeps_valid_selection(selected: Option<usize>, n: nat)
    ensures
        match reselect(selected, n) {
            Some(i) => i < n,
            None => n == 0,
        },
        selected matches Some(i) && i < n ==> reselect(selected, n) == selected,
{
}

} // verus!
