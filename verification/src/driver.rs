//! The decision core of the pipeline live loop.
//!
//! One loop cycle captures a frame, recognises the current task, fires the
//! resulting input command and sleeps. Capture, recognition, firing, the
//! recovery hook and the sleep are outside work; everything the loop decides
//! (when to stop, why, what to report, when to invoke recovery) lives in
//! [`LoopRun`], a state machine fed with the result of each piece of outside
//! work. Its transition is the spec function [`LoopRunView::observe`], so the
//! laws about the loop are stated over that one definition.
use vstd::prelude::*;
use vstd::string::*;

use crate::text::{
    chars_of, dec, join_seqs, join_strings, owned, push_dec, seq_eq, starts_with_seq, str_starts_with,
    views,
};

verus! {

// ---------------------------------------------------------------------------
// Commands, step results, stop reasons
// ---------------------------------------------------------------------------

/// An input command in pixel coordinates.
#[derive(Debug, Clone, Copy, PartialEq, Eq)]
pub enum InputCommand {
    /// Tap at a point.
    Tap { x: u32, y: u32 },
    /// Swipe from `from` to `to`.
    Swipe { from: (u32, u32), to: (u32, u32) },
}

/// `r` is `cmd` with each coordinate taken through `scale`.
pub open spec fn rescaled<F: Fn(u32) -> u32>(cmd: InputCommand, scale: F, r: InputCommand) -> bool {
    match (cmd, r) {
        (InputCommand::Tap { x, y }, InputCommand::Tap { x: rx, y: ry }) => scale.ensures((x,), rx) && scale.ensures(
            (y,),
            ry,
        ),
        (InputCommand::Swipe { from, to }, InputCommand::Swipe { from: rf, to: rt }) => {
            &&& scale.ensures((from.0,), rf.0)
            &&& scale.ensures((from.1,), rf.1)
            &&& scale.ensures((to.0,), rt.0)
            &&& scale.ensures((to.1,), rt.1)
        },
        _ => false,
    }
}

/// Moves a command from base coordinates to the device's: `from_base` maps
/// one base coordinate to the device (the screen scaler's uniform, width
/// based factor, the same for both axes); the command keeps its kind.
pub fn rescale_command<F: Fn(u32) -> u32>(cmd: InputCommand, from_base: F) -> (r: InputCommand)
    requires
        forall|v: u32| from_base.requires((v,)),
    ensures
        rescaled(cmd, from_base, r),
{
    match cmd {
        InputCommand::Tap { x, y } => InputCommand::Tap { x: from_base(x), y: from_base(y) },
        InputCommand::Swipe { from, to } => InputCommand::Swipe {
            from: (from_base(from.0), from_base(from.1)),
            to: (from_base(to.0), from_base(to.1)),
        },
    }
}

/// The result of one loop cycle.
#[derive(Debug, Clone, PartialEq, Eq)]
pub enum StepOutcome {
    /// The current task matched and a command was fired.
    Fired { next_current: Option<String>, fired: Option<InputCommand> },
    /// The current task matched without a command; `None` as next means stop.
    NoFire { next_current: Option<String> },
    /// The current task did not match.
    NoMatch,
    /// Capture or firing failed.
    Error(String),
    /// A command was fired but the target was still on screen afterwards.
    FiredUnverified { next_current: Option<String>, fired: Option<InputCommand> },
}

/// The view of an optional string.
pub open spec fn opt_view(o: Option<String>) -> Option<Seq<char>> {
    match o {
        Some(s) => Some(s@),
        None => None,
    }
}

/// Abstract step result.
pub enum StepView {
    Fired { next: Option<Seq<char>>, fired: Option<InputCommand> },
    NoFire { next: Option<Seq<char>> },
    NoMatch,
    Error(Seq<char>),
    FiredUnverified { next: Option<Seq<char>>, fired: Option<InputCommand> },
}

impl View for StepOutcome {
    type V = StepView;

    open spec fn view(&self) -> StepView {
        match self {
            StepOutcome::Fired { next_current, fired } => StepView::Fired {
                next: opt_view(*next_current),
                fired: *fired,
            },
            StepOutcome::NoFire { next_current } => StepView::NoFire { next: opt_view(*next_current) },
            StepOutcome::NoMatch => StepView::NoMatch,
            StepOutcome::Error(m) => StepView::Error(m@),
            StepOutcome::FiredUnverified { next_current, fired } => StepView::FiredUnverified {
                next: opt_view(*next_current),
                fired: *fired,
            },
        }
    }
}

/// Why the loop stopped.
#[derive(Debug, Clone, Copy, PartialEq, Eq)]
pub enum LoopStopReason {
    /// A `Stop` action was reached.
    Stop,
    /// A task without a successor fired.
    TerminalTask,
    /// The iteration budget was used up.
    MaxIterations,
    /// Capturing a frame failed.
    CaptureError,
    /// Firing a command (or the recovery hook) failed.
    ExecuteError,
    /// The declared goal was reached.
    GoalReached,
    /// The declared goal failed (timed out).
    GoalTimeout,
    /// The run was interrupted by the user.
    Interrupted,
}

/// The verdict of a declared goal after one cycle.
#[derive(Debug, Clone, Copy, PartialEq, Eq)]
pub enum GoalVerdict {
    /// Keep going.
    NotYet,
    /// The goal is reached.
    Reached,
    /// The goal failed.
    Failed,
}

// ---------------------------------------------------------------------------
// Goals
// ---------------------------------------------------------------------------

/// The stop condition of a declared goal.
#[derive(Debug, Clone, PartialEq, Eq)]
pub enum StopCondition {
    /// Stop after `target` cycles.
    LoopCount { target: u64 },
    /// Stop when `task` matches with at least `confidence` (its decimal text).
    TemplateMatch { task: String, confidence: String },
    /// Fail after `secs` seconds.
    Timeout { secs: u64 },
}

/// A declared goal.
#[derive(Debug, Clone, PartialEq, Eq)]
pub struct Goal {
    /// Goal name.
    pub name: String,
    /// Its stop condition.
    pub stop: StopCondition,
}

/// The descriptor reported for a goal.
pub open spec fn goal_descriptor_spec(stop: StopCondition) -> Seq<char> {
    match stop {
        StopCondition::LoopCount { target } => "loop_count="@ + dec(target as nat),
        StopCondition::TemplateMatch { task, confidence } => "template_match conf>="@ + confidence@
            + " (task="@ + task@ + ")"@,
        StopCondition::Timeout { secs } => "timeout="@ + dec(secs as nat),
    }
}

/// The descriptor of a goal: `loop_count=<n>`, `template_match conf>=<c> (task=<t>)`
/// or `timeout=<secs>`.
pub fn goal_descriptor(goal: &Goal) -> (out: String)
    ensures
        out@ == goal_descriptor_spec(goal.stop),
{
    match &goal.stop {
        StopCondition::LoopCount { target } => {
            let mut s = String::from_str("loop_count=");
            push_dec(&mut s, *target);
            s
        },
        StopCondition::TemplateMatch { task, confidence } => {
            let mut s = String::from_str("template_match conf>=");
            s.append(confidence.as_str());
            s.append(" (task=");
            s.append(task.as_str());
            s.append(")");
            s
        },
        StopCondition::Timeout { secs } => {
            let mut s = String::from_str("timeout=");
            push_dec(&mut s, *secs);
            s
        },
    }
}

// ---------------------------------------------------------------------------
// Per-task match counts
// ---------------------------------------------------------------------------

/// How often one task matched.
#[derive(Debug, Clone, PartialEq, Eq)]
pub struct TaskMatchCount {
    /// Task name.
    pub task: String,
    /// Number of matches.
    pub matches: u64,
}

/// The views of a list of match counts.
pub open spec fn counts_view(v: Seq<TaskMatchCount>) -> Seq<(Seq<char>, u64)> {
    v.map_values(|t: TaskMatchCount| (t.task@, t.matches))
}

/// `i` is the first entry of `list` named `name`.
pub open spec fn is_first_task(list: Seq<(Seq<char>, u64)>, name: Seq<char>, i: int) -> bool {
    0 <= i < list.len() && list[i].0 == name && forall|j: int| 0 <= j < i ==> list[j].0 != name
}

/// `list` after one more match of `name`: the existing entry is incremented
/// (saturating), or a new entry `(name, 1)` is appended.
pub open spec fn bump_spec(list: Seq<(Seq<char>, u64)>, name: Seq<char>) -> Seq<(Seq<char>, u64)> {
    if exists|i: int| is_first_task(list, name, i) {
        let i = choose|i: int| is_first_task(list, name, i);
        list.update(
            i,
            (
                name,
                if list[i].1 == u64::MAX {
                    u64::MAX
                } else {
                    (list[i].1 + 1) as u64
                },
            ),
        )
    } else {
        list.push((name, 1u64))
    }
}

/// No two entries carry the same task name.
pub open spec fn names_unique(list: Seq<(Seq<char>, u64)>) -> bool {
    forall|i: int, j: int| 0 <= i < j < list.len() ==> list[i].0 != list[j].0
}

proof fn lemma_bump_keeps_unique(list: Seq<(Seq<char>, u64)>, name: Seq<char>)
    requires
        names_unique(list),
    ensures
        names_unique(bump_spec(list, name)),
        bump_spec(list, name).len() >= list.len(),
{
    if exists|i: int| is_first_task(list, name, i) {
        let i = choose|i: int| is_first_task(list, name, i);
        let r = bump_spec(list, name);
        assert forall|a: int, b: int| 0 <= a < b < r.len() implies r[a].0 != r[b].0 by {
            if a == i {
                assert(list[b].0 != list[i].0);
            } else if b == i {
                assert(list[a].0 != list[i].0);
            }
        }
    } else {
        let r = bump_spec(list, name);
        assert forall|a: int, b: int| 0 <= a < b < r.len() implies r[a].0 != r[b].0 by {
            if b == list.len() {
                if list[a].0 == name {
                    let mut k = a;
                    assert(exists|i: int| is_first_task(list, name, i)) by {
                        lemma_first_exists(list, name, a);
                    }
                }
            }
        }
    }
}

proof fn lemma_first_exists(list: Seq<(Seq<char>, u64)>, name: Seq<char>, k: int)
    requires
        0 <= k < list.len(),
        list[k].0 == name,
    ensures
        exists|i: int| is_first_task(list, name, i),
    decreases k,
{
    if forall|j: int| 0 <= j < k ==> list[j].0 != name {
        assert(is_first_task(list, name, k));
    } else {
        let j = choose|j: int| 0 <= j < k && list[j].0 == name;
        lemma_first_exists(list, name, j);
    }
}

/// Counts one more match of `current` in `list` (insertion order kept).
pub fn bump_task_match(current: &str, list: &mut Vec<TaskMatchCount>)
    ensures
        counts_view(final(list)@) == bump_spec(counts_view(old(list)@), current@),
{
    let ghost old_view = counts_view(list@);
    let name = chars_of(current);
    let mut i: usize = 0;
    while i < list.len()
        invariant
            i <= list.len(),
            old_view == counts_view(list@),
            old_view == counts_view(old(list)@),
            name@ == current@,
            forall|j: int| 0 <= j < i ==> old_view[j].0 != current@,
        decreases list.len() - i,
    {
        let t = chars_of(list[i].task.as_str());
        if seq_eq(&t, &name) {
            assert(is_first_task(old_view, current@, i as int));
            assert forall|k: int| is_first_task(old_view, current@, k) implies k == i by {
                if k < i {
                } else if k > i {
                    assert(old_view[i as int].0 == current@);
                }
            }
            let m = list[i].matches;
            let nm = if m == u64::MAX {
                u64::MAX
            } else {
                m + 1
            };
            let entry = TaskMatchCount { task: list[i].task.clone(), matches: nm };
            list.set(i, entry);
            let ghost k = choose|k: int| is_first_task(old_view, current@, k);
            assert(k == i);
            assert(old_view[i as int].1 == m);
            assert(counts_view(list@) =~= old_view.update(
                i as int,
                (
                    current@,
                    if m == u64::MAX {
                        u64::MAX
                    } else {
                        (m + 1) as u64
                    },
                ),
            ));
            assert(counts_view(list@) =~= bump_spec(old_view, current@));
            return ;
        }
        i = i + 1;
    }
    assert(!exists|k: int| is_first_task(old_view, current@, k));
    list.push(TaskMatchCount { task: owned(current), matches: 1 });
    assert(counts_view(list@) =~= bump_spec(old_view, current@));
}

// ---------------------------------------------------------------------------
// Progress reports and loop outcomes
// ---------------------------------------------------------------------------

/// A machine-readable summary of a finished loop.
#[derive(Debug, Clone, PartialEq, Eq)]
pub struct ProgressReport {
    /// Cycles run.
    pub iterations: u64,
    /// Commands fired.
    pub fired_count: u64,
    /// Matches per task, in first-match order.
    pub per_task_matches: Vec<TaskMatchCount>,
    /// Elapsed milliseconds.
    pub elapsed_ms: u64,
    /// The task reached when the loop stopped.
    pub terminal_task: Option<String>,
    /// The descriptor of the goal that stopped the loop.
    pub reached_goal: Option<String>,
}

impl Default for ProgressReport {
    fn default() -> (r: Self)
        ensures
            r.iterations == 0,
            r.fired_count == 0,
            r.per_task_matches@.len() == 0,
            r.elapsed_ms == 0,
            r.terminal_task is None,
            r.reached_goal is None,
    {
        ProgressReport {
            iterations: 0,
            fired_count: 0,
            per_task_matches: Vec::new(),
            elapsed_ms: 0,
            terminal_task: None,
            reached_goal: None,
        }
    }
}

/// The result of a loop.
#[derive(Debug, Clone, PartialEq, Eq)]
pub struct LoopOutcome {
    /// Cycles run.
    pub iterations: u64,
    /// Commands fired, in order.
    pub fired_commands: Vec<InputCommand>,
    /// The terminal task name or a stop label.
    pub terminal: String,
    /// Why the loop stopped.
    pub reason: LoopStopReason,
    /// The progress report.
    pub progress_report: ProgressReport,
}

/// Abstract progress report.
pub struct ProgressView {
    pub iterations: u64,
    pub fired_count: u64,
    pub per_task: Seq<(Seq<char>, u64)>,
    pub elapsed_ms: u64,
    pub terminal_task: Option<Seq<char>>,
    pub reached_goal: Option<Seq<char>>,
}

/// Abstract loop outcome.
pub struct OutcomeView {
    pub iterations: u64,
    pub fired: Seq<InputCommand>,
    pub terminal: Seq<char>,
    pub reason: LoopStopReason,
    pub progress: ProgressView,
}

impl View for LoopOutcome {
    type V = OutcomeView;

    open spec fn view(&self) -> OutcomeView {
        OutcomeView {
            iterations: self.iterations,
            fired: self.fired_commands@,
            terminal: self.terminal@,
            reason: self.reason,
            progress: ProgressView {
                iterations: self.progress_report.iterations,
                fired_count: self.progress_report.fired_count,
                per_task: counts_view(self.progress_report.per_task_matches@),
                elapsed_ms: self.progress_report.elapsed_ms,
                terminal_task: opt_view(self.progress_report.terminal_task),
                reached_goal: opt_view(self.progress_report.reached_goal),
            },
        }
    }
}

/// The outcome assembled when the loop stops: the report repeats the counts,
/// names the terminal task when the label is non-empty, and carries the goal
/// descriptor when one is given.
pub open spec fn outcome_spec(
    iterations: u64,
    fired: Seq<InputCommand>,
    reason: LoopStopReason,
    terminal: Seq<char>,
    per_task: Seq<(Seq<char>, u64)>,
    elapsed_ms: u64,
    reached_goal: Option<Seq<char>>,
) -> OutcomeView {
    OutcomeView {
        iterations,
        fired,
        terminal,
        reason,
        progress: ProgressView {
            iterations,
            fired_count: fired.len() as u64,
            per_task,
            elapsed_ms,
            terminal_task: if terminal.len() == 0 {
                None
            } else {
                Some(terminal)
            },
            reached_goal,
        },
    }
}

fn clone_counts(v: &Vec<TaskMatchCount>) -> (out: Vec<TaskMatchCount>)
    ensures
        counts_view(out@) == counts_view(v@),
{
    let mut out: Vec<TaskMatchCount> = Vec::new();
    let mut i: usize = 0;
    while i < v.len()
        invariant
            i <= v.len(),
            counts_view(out@) == counts_view(v@.take(i as int)),
        decreases v.len() - i,
    {
        out.push(TaskMatchCount { task: v[i].task.clone(), matches: v[i].matches });
        assert(counts_view(v@.take(i + 1)) =~= counts_view(v@.take(i as int)).push(
            (v@[i as int].task@, v@[i as int].matches),
        ));
        i = i + 1;
    }
    assert(v@.take(v@.len() as int) =~= v@);
    out
}

fn clone_commands(v: &Vec<InputCommand>) -> (out: Vec<InputCommand>)
    ensures
        out@ == v@,
{
    let mut out: Vec<InputCommand> = Vec::new();
    let mut i: usize = 0;
    while i < v.len()
        invariant
            i <= v.len(),
            out@ == v@.take(i as int),
        decreases v.len() - i,
    {
        out.push(v[i]);
        assert(v@.take(i + 1) =~= v@.take(i as int).push(v@[i as int]));
        i = i + 1;
    }
    assert(v@.take(v@.len() as int) =~= v@);
    out
}

/// Assembles a loop outcome (see [`outcome_spec`]).
pub fn build_outcome(
    iterations: u64,
    fired_commands: Vec<InputCommand>,
    reason: LoopStopReason,
    terminal: &str,
    per_task_matches: Vec<TaskMatchCount>,
    elapsed_ms: u64,
    reached_goal: Option<String>,
) -> (out: LoopOutcome)
    ensures
        out@ == outcome_spec(
            iterations,
            fired_commands@,
            reason,
            terminal@,
            counts_view(per_task_matches@),
            elapsed_ms,
            opt_view(reached_goal),
        ),
{
    let fired_count = fired_commands.len() as u64;
    let terminal_task = if terminal.unicode_len() == 0 {
        None
    } else {
        Some(owned(terminal))
    };
    LoopOutcome {
        iterations,
        fired_commands,
        terminal: owned(terminal),
        reason,
        progress_report: ProgressReport {
            iterations,
            fired_count,
            per_task_matches,
            elapsed_ms,
            terminal_task,
            reached_goal,
        },
    }
}

// ---------------------------------------------------------------------------
// The loop state machine
// ---------------------------------------------------------------------------

/// The decision after one observed cycle.
#[derive(Debug)]
pub enum LoopDecision {
    /// Sleep for the interval and run the next cycle.
    Continue,
    /// Invoke the recovery hook with this streak, then report its result.
    Recover { streak: u32 },
    /// The loop is over.
    Finish(LoopOutcome),
}

/// Abstract decision.
pub enum DecisionView {
    Continue,
    Recover(u32),
    Finish(OutcomeView),
}

impl View for LoopDecision {
    type V = DecisionView;

    open spec fn view(&self) -> DecisionView {
        match self {
            LoopDecision::Continue => DecisionView::Continue,
            LoopDecision::Recover { streak } => DecisionView::Recover(*streak),
            LoopDecision::Finish(o) => DecisionView::Finish(o@),
        }
    }
}

/// The state of a running loop.
pub struct LoopRun {
    max_iterations: u64,
    recover_threshold: u32,
    recovery_enabled: bool,
    goal: Option<String>,
    iterations: u64,
    fired: Vec<InputCommand>,
    nomatch_streak: u32,
    per_task_matches: Vec<TaskMatchCount>,
}

/// Abstract loop state.
pub struct LoopRunView {
    /// Iteration budget.
    pub max_iterations: u64,
    /// NoMatch streak that triggers recovery.
    pub recover_threshold: u32,
    /// Whether a recovery hook is in use (threshold > 0 and a hook given).
    pub recovery_enabled: bool,
    /// The goal descriptor in goal mode; `None` without a goal.
    pub goal: Option<Seq<char>>,
    /// Number of the cycle in progress (cycles started so far).
    pub iterations: u64,
    /// Commands fired so far.
    pub fired: Seq<InputCommand>,
    /// Consecutive cycles without a verified match.
    pub streak: u32,
    /// Matches per task.
    pub per_task: Seq<(Seq<char>, u64)>,
}

impl View for LoopRun {
    type V = LoopRunView;

    closed spec fn view(&self) -> LoopRunView {
        LoopRunView {
            max_iterations: self.max_iterations,
            recover_threshold: self.recover_threshold,
            recovery_enabled: self.recovery_enabled,
            goal: opt_view(self.goal),
            iterations: self.iterations,
            fired: self.fired@,
            streak: self.nomatch_streak,
            per_task: counts_view(self.per_task_matches@),
        }
    }
}

/// `s + 1`, saturating at `u32::MAX`.
pub open spec fn sat_inc(s: u32) -> u32 {
    if s == u32::MAX {
        u32::MAX
    } else {
        (s + 1) as u32
    }
}

/// The fired command list after an optional command.
pub open spec fn push_opt(fired: Seq<InputCommand>, c: Option<InputCommand>) -> Seq<InputCommand> {
    match c {
        Some(c) => fired.push(c),
        None => fired,
    }
}

impl LoopRunView {
    /// Invariant of every reachable state.
    pub open spec fn wf(self) -> bool {
        &&& self.iterations <= self.max_iterations
        &&& names_unique(self.per_task)
        &&& self.recovery_enabled ==> self.recover_threshold > 0
    }

    /// Outcome built from this state.
    pub open spec fn outcome(
        self,
        iterations: u64,
        reason: LoopStopReason,
        terminal: Seq<char>,
        elapsed_ms: u64,
        reached_goal: Option<Seq<char>>,
    ) -> OutcomeView {
        outcome_spec(iterations, self.fired, reason, terminal, self.per_task, elapsed_ms, reached_goal)
    }

    /// Start of a cycle: stop with `MaxIterations` when the budget is used up,
    /// otherwise count the new cycle.
    pub open spec fn begin(self, elapsed_ms: u64) -> (LoopRunView, Option<OutcomeView>) {
        if self.iterations >= self.max_iterations {
            (
                self,
                Some(
                    self.outcome(
                        self.iterations,
                        LoopStopReason::MaxIterations,
                        "max_iterations"@,
                        elapsed_ms,
                        None,
                    ),
                ),
            )
        } else {
            (LoopRunView { iterations: (self.iterations + 1) as u64, ..self }, None)
        }
    }

    /// Goal check after a counted cycle (goal mode only).
    pub open spec fn goal_stop(self, verdict: GoalVerdict, elapsed_ms: u64) -> Option<OutcomeView> {
        match self.goal {
            Some(d) => match verdict {
                GoalVerdict::NotYet => None,
                GoalVerdict::Reached => Some(
                    self.outcome(
                        self.iterations,
                        LoopStopReason::GoalReached,
                        "goal_reached"@,
                        elapsed_ms,
                        Some(d),
                    ),
                ),
                GoalVerdict::Failed => Some(
                    self.outcome(
                        self.iterations,
                        LoopStopReason::GoalTimeout,
                        "goal_timeout"@,
                        elapsed_ms,
                        Some(d),
                    ),
                ),
            },
            None => None,
        }
    }

    /// Streak handling after a cycle without a verified match.
    pub open spec fn after_miss(self) -> DecisionView {
        if self.recovery_enabled && self.streak >= self.recover_threshold {
            DecisionView::Recover(self.streak)
        } else {
            DecisionView::Continue
        }
    }

    /// One observed cycle: `before`/`after` are the current task names before
    /// and after the cycle, `verdict` the goal verdict (ignored without a goal).
    pub open spec fn observe(
        self,
        before: Seq<char>,
        step: StepView,
        verdict: GoalVerdict,
        after: Seq<char>,
        elapsed_ms: u64,
    ) -> (LoopRunView, DecisionView) {
        match step {
            StepView::Fired { next, fired } => {
                let s = LoopRunView {
                    streak: 0,
                    per_task: bump_spec(self.per_task, before),
                    fired: push_opt(self.fired, fired),
                    ..self
                };
                match s.goal_stop(verdict, elapsed_ms) {
                    Some(o) => (s, DecisionView::Finish(o)),
                    None => if next is None {
                        (
                            s,
                            DecisionView::Finish(
                                s.outcome(
                                    s.iterations,
                                    LoopStopReason::TerminalTask,
                                    after,
                                    elapsed_ms,
                                    None,
                                ),
                            ),
                        )
                    } else {
                        (s, DecisionView::Continue)
                    },
                }
            },
            StepView::NoFire { next } => {
                let s = LoopRunView { streak: 0, per_task: bump_spec(self.per_task, before), ..self };
                match s.goal_stop(verdict, elapsed_ms) {
                    Some(o) => (s, DecisionView::Finish(o)),
                    None => if next is None {
                        (
                            s,
                            DecisionView::Finish(
                                s.outcome(s.iterations, LoopStopReason::Stop, "stop"@, elapsed_ms, None),
                            ),
                        )
                    } else {
                        (s, DecisionView::Continue)
                    },
                }
            },
            StepView::NoMatch => {
                let s = LoopRunView { streak: sat_inc(self.streak), ..self };
                match s.goal_stop(verdict, elapsed_ms) {
                    Some(o) => (s, DecisionView::Finish(o)),
                    None => (s, s.after_miss()),
                }
            },
            StepView::FiredUnverified { next, fired } => {
                let s = LoopRunView {
                    streak: sat_inc(self.streak),
                    per_task: bump_spec(self.per_task, before),
                    fired: push_opt(self.fired, fired),
                    ..self
                };
                match s.goal_stop(verdict, elapsed_ms) {
                    Some(o) => (s, DecisionView::Finish(o)),
                    None => (s, s.after_miss()),
                }
            },
            StepView::Error(msg) => {
                let reason = if starts_with_seq(msg, "capture"@) {
                    LoopStopReason::CaptureError
                } else {
                    LoopStopReason::ExecuteError
                };
                (
                    self,
                    DecisionView::Finish(
                        self.outcome((self.iterations - 1) as u64, reason, "io_error"@, elapsed_ms, None),
                    ),
                )
            },
        }
    }

    /// The recovery hook reported back: success resets the streak, failure stops
    /// the loop with `ExecuteError`, not counting the current cycle.
    pub open spec fn recovered(self, succeeded: bool, elapsed_ms: u64) -> (LoopRunView, Option<OutcomeView>) {
        if succeeded {
            (LoopRunView { streak: 0, ..self }, None)
        } else {
            (
                self,
                Some(
                    self.outcome(
                        (self.iterations - 1) as u64,
                        LoopStopReason::ExecuteError,
                        "recovery_failed"@,
                        elapsed_ms,
                        None,
                    ),
                ),
            )
        }
    }
}

/// The initial loop state.
pub open spec fn initial_run(
    max_iterations: u64,
    recover_threshold: u32,
    has_recovery_hook: bool,
    goal: Option<Seq<char>>,
) -> LoopRunView {
    LoopRunView {
        max_iterations,
        recover_threshold,
        recovery_enabled: recover_threshold > 0 && has_recovery_hook,
        goal,
        iterations: 0,
        fired: Seq::empty(),
        streak: 0,
        per_task: Seq::empty(),
    }
}

impl LoopRun {
    /// A new loop with an iteration budget, a recovery threshold (0 disables
    /// recovery), whether a recovery hook exists, and an optional goal.
    pub fn new(
        max_iterations: u64,
        recover_threshold: u32,
        has_recovery_hook: bool,
        goal: Option<&Goal>,
    ) -> (r: LoopRun)
        ensures
            r@ == initial_run(
                max_iterations,
                recover_threshold,
                has_recovery_hook,
                match goal {
                    Some(g) => Some(goal_descriptor_spec(g.stop)),
                    None => None,
                },
            ),
            r@.wf(),
    {
        let d = match goal {
            Some(g) => Some(goal_descriptor(g)),
            None => None,
        };
        let r = LoopRun {
            max_iterations,
            recover_threshold,
            recovery_enabled: recover_threshold > 0 && has_recovery_hook,
            goal: d,
            iterations: 0,
            fired: Vec::new(),
            nomatch_streak: 0,
            per_task_matches: Vec::new(),
        };
        assert(r@.per_task =~= Seq::<(Seq<char>, u64)>::empty());
        assert(r@.fired =~= Seq::<InputCommand>::empty());
        r
    }

    fn outcome(
        &self,
        iterations: u64,
        reason: LoopStopReason,
        terminal: &str,
        elapsed_ms: u64,
        reached_goal: Option<String>,
    ) -> (o: LoopOutcome)
        ensures
            o@ == self@.outcome(iterations, reason, terminal@, elapsed_ms, opt_view(reached_goal)),
    {
        build_outcome(
            iterations,
            clone_commands(&self.fired),
            reason,
            terminal,
            clone_counts(&self.per_task_matches),
            elapsed_ms,
            reached_goal,
        )
    }

    /// Starts a cycle (see [`LoopRunView::begin`]).
    pub fn begin_iteration(&mut self, elapsed_ms: u64) -> (r: Option<LoopOutcome>)
        requires
            old(self)@.wf(),
        ensures
            (final(self)@, match r {
                Some(o) => Some(o@),
                None => None,
            }) == old(self)@.begin(elapsed_ms),
            final(self)@.wf(),
    {
        if self.iterations >= self.max_iterations {
            let o = self.outcome(self.iterations, LoopStopReason::MaxIterations, "max_iterations", elapsed_ms, None);
            Some(o)
        } else {
            self.iterations = self.iterations + 1;
            None
        }
    }

    fn goal_stop(&self, verdict: GoalVerdict, elapsed_ms: u64) -> (r: Option<LoopOutcome>)
        ensures
            match r {
                Some(o) => Some(o@),
                None => None,
            } == self@.goal_stop(verdict, elapsed_ms),
    {
        match &self.goal {
            Some(d) => match verdict {
                GoalVerdict::NotYet => None,
                GoalVerdict::Reached => Some(
                    self.outcome(
                        self.iterations,
                        LoopStopReason::GoalReached,
                        "goal_reached",
                        elapsed_ms,
                        Some(d.clone()),
                    ),
                ),
                GoalVerdict::Failed => Some(
                    self.outcome(
                        self.iterations,
                        LoopStopReason::GoalTimeout,
                        "goal_timeout",
                        elapsed_ms,
                        Some(d.clone()),
                    ),
                ),
            },
            None => None,
        }
    }

    fn after_miss(&self) -> (d: LoopDecision)
        ensures
            d@ == self@.after_miss(),
    {
        if self.recovery_enabled && self.nomatch_streak >= self.recover_threshold {
            LoopDecision::Recover { streak: self.nomatch_streak }
        } else {
            LoopDecision::Continue
        }
    }

    fn push_fired(&mut self, c: Option<InputCommand>)
        ensures
            final(self)@ == (LoopRunView { fired: push_opt(old(self)@.fired, c), ..old(self)@ }),
    {
        if let Some(c) = c {
            self.fired.push(c);
        }
    }

    /// Records one finished cycle and decides what happens next (see
    /// [`LoopRunView::observe`]).
    pub fn observe_step(
        &mut self,
        current_before: &str,
        step: StepOutcome,
        verdict: GoalVerdict,
        current_after: &str,
        elapsed_ms: u64,
    ) -> (d: LoopDecision)
        requires
            old(self)@.wf(),
            old(self)@.iterations >= 1,
        ensures
            (final(self)@, d@) == old(self)@.observe(
                current_before@,
                step@,
                verdict,
                current_after@,
                elapsed_ms,
            ),
            final(self)@.wf(),
            final(self)@.iterations == old(self)@.iterations,
    {
        proof {
            lemma_bump_keeps_unique(self@.per_task, current_before@);
        }
        let ghost s0 = self@;
        match step {
            StepOutcome::Fired { next_current, fired } => {
                self.nomatch_streak = 0;
                bump_task_match(current_before, &mut self.per_task_matches);
                self.push_fired(fired);
                if let Some(o) = self.goal_stop(verdict, elapsed_ms) {
                    return LoopDecision::Finish(o);
                }
                if next_current.is_none() {
                    let o = self.outcome(self.iterations, LoopStopReason::TerminalTask, current_after, elapsed_ms, None);
                    return LoopDecision::Finish(o);
                }
                LoopDecision::Continue
            },
            StepOutcome::NoFire { next_current } => {
                self.nomatch_streak = 0;
                bump_task_match(current_before, &mut self.per_task_matches);
                if let Some(o) = self.goal_stop(verdict, elapsed_ms) {
                    return LoopDecision::Finish(o);
                }
                if next_current.is_none() {
                    let o = self.outcome(self.iterations, LoopStopReason::Stop, "stop", elapsed_ms, None);
                    return LoopDecision::Finish(o);
                }
                LoopDecision::Continue
            },
            StepOutcome::NoMatch => {
                self.nomatch_streak = if self.nomatch_streak == u32::MAX {
                    u32::MAX
                } else {
                    self.nomatch_streak + 1
                };
                if let Some(o) = self.goal_stop(verdict, elapsed_ms) {
                    return LoopDecision::Finish(o);
                }
                self.after_miss()
            },
            StepOutcome::FiredUnverified { next_current, fired } => {
                bump_task_match(current_before, &mut self.per_task_matches);
                self.push_fired(fired);
                self.nomatch_streak = if self.nomatch_streak == u32::MAX {
                    u32::MAX
                } else {
                    self.nomatch_streak + 1
                };
                if let Some(o) = self.goal_stop(verdict, elapsed_ms) {
                    return LoopDecision::Finish(o);
                }
                self.after_miss()
            },
            StepOutcome::Error(msg) => {
                let reason = if str_starts_with(msg.as_str(), "capture") {
                    LoopStopReason::CaptureError
                } else {
                    LoopStopReason::ExecuteError
                };
                let o = self.outcome(self.iterations - 1, reason, "io_error", elapsed_ms, None);
                LoopDecision::Finish(o)
            },
        }
    }

    /// Reports the result of the recovery hook (see [`LoopRunView::recovered`]).
    pub fn observe_recovery(&mut self, succeeded: bool, elapsed_ms: u64) -> (r: Option<LoopOutcome>)
        requires
            old(self)@.wf(),
            old(self)@.iterations >= 1,
        ensures
            (final(self)@, match r {
                Some(o) => Some(o@),
                None => None,
            }) == old(self)@.recovered(succeeded, elapsed_ms),
            final(self)@.wf(),
            final(self)@.iterations == old(self)@.iterations,
    {
        if succeeded {
            self.nomatch_streak = 0;
            None
        } else {
            let o = self.outcome(self.iterations - 1, LoopStopReason::ExecuteError, "recovery_failed", elapsed_ms, None);
            Some(o)
        }
    }

    /// The cycle number in progress.
    pub fn iterations(&self) -> (r: u64)
        ensures
            r == self@.iterations,
    {
        self.iterations
    }

    /// The current NoMatch streak.
    pub fn nomatch_streak(&self) -> (r: u32)
        ensures
            r == self@.streak,
    {
        self.nomatch_streak
    }
}


// ---------------------------------------------------------------------------
// Cycle helpers
// ---------------------------------------------------------------------------

/// The step result of a failed capture: `Error("capture: <e>")`.
pub fn capture_error(e: &str) -> (r: StepOutcome)
    ensures
        r@ == StepView::Error("capture: "@ + e@),
{
    let mut m = String::from_str("capture: ");
    m.append(e);
    StepOutcome::Error(m)
}

/// The step result of a failed firing: `Error("execute: <e>")`.
pub fn execute_error(e: &str) -> (r: StepOutcome)
    ensures
        r@ == StepView::Error("execute: "@ + e@),
{
    let mut m = String::from_str("execute: ");
    m.append(e);
    StepOutcome::Error(m)
}

/// The step result of a failed verification capture: `Error("verify_capture: <e>")`.
pub fn verify_capture_error(e: &str) -> (r: StepOutcome)
    ensures
        r@ == StepView::Error("verify_capture: "@ + e@),
{
    let mut m = String::from_str("verify_capture: ");
    m.append(e);
    StepOutcome::Error(m)
}

/// The loop state of a pipeline: the name of the current task.
#[derive(Debug, Clone, PartialEq, Eq)]
pub struct PipelineState {
    /// The current task name.
    pub current: String,
}

impl PipelineState {
    /// A state whose current task is `current`.
    pub fn new(current: &str) -> (r: PipelineState)
        ensures
            r.current@ == current@,
    {
        PipelineState { current: owned(current) }
    }

    /// The current task name.
    pub fn current(&self) -> (r: &str)
        ensures
            r@ == self.current@,
    {
        self.current.as_str()
    }

    /// Forces the current task name (used to roll back after a failed verification).
    pub fn set_current(&mut self, current: &str)
        ensures
            final(self).current@ == current@,
    {
        self.current = owned(current);
    }

    /// Settles a fired cycle after the post-fire re-check: when the fired task
    /// is still on screen the current task rolls back to `pre_task` and the
    /// cycle counts as `FiredUnverified`; otherwise it stays `Fired`.
    pub fn settle_verification(
        &mut self,
        pre_task: &str,
        next_current: Option<String>,
        fired: Option<InputCommand>,
        still_present: bool,
    ) -> (r: StepOutcome)
        ensures
            still_present ==> final(self).current@ == pre_task@ && r@ == (StepView::FiredUnverified {
                next: opt_view(next_current),
                fired,
            }),
            !still_present ==> final(self).current@ == old(self).current@ && r@ == (StepView::Fired {
                next: opt_view(next_current),
                fired,
            }),
    {
        if still_present {
            self.set_current(pre_task);
            StepOutcome::FiredUnverified { next_current, fired }
        } else {
            StepOutcome::Fired { next_current, fired }
        }
    }
}

/// Source of the elapsed seconds a goal is evaluated against.
pub trait GoalClock {
    /// Seconds since the loop started.
    fn elapsed_secs(&mut self) -> u64;
}

/// Declares `std::time::Instant` to the verifier.
#[verifier::external_type_specification]
#[verifier::external_body]
pub struct ExInstant(std::time::Instant);

/// std `Instant::now` (nothing is stated: the result is the machine's clock).
#[verifier::external_body]
fn instant_now() -> std::time::Instant {
    std::time::Instant::now()
}

/// std `Instant::elapsed().as_secs()` (nothing is stated: it reads the clock).
#[verifier::external_body]
fn whole_secs_since(t: &std::time::Instant) -> u64 {
    t.elapsed().as_secs()
}

/// The wall clock.
pub struct SystemClock {
    started: std::time::Instant,
}

impl SystemClock {
    /// Starts measuring now.
    pub fn new() -> Self {
        SystemClock { started: instant_now() }
    }
}

impl GoalClock for SystemClock {
    fn elapsed_secs(&mut self) -> u64 {
        whole_secs_since(&self.started)
    }
}

// ---------------------------------------------------------------------------
// Human-readable progress report
// ---------------------------------------------------------------------------

/// `task=<matches>`.
pub open spec fn task_entry_text(e: (Seq<char>, u64)) -> Seq<char> {
    e.0 + "="@ + dec(e.1 as nat)
}

/// A report's own count, or the outcome's count when the report has none
/// (an outcome written before reports carried counts).
pub open spec fn report_first(report: u64, fallback: u64) -> u64 {
    if report != 0 {
        report
    } else {
        fallback
    }
}

/// The lines of the progress report of `o`.
pub open spec fn progress_lines(o: OutcomeView) -> Seq<Seq<char>> {
    let pr = o.progress;
    let it = report_first(pr.iterations, o.iterations);
    let fc = report_first(pr.fired_count, o.fired.len() as u64);
    let tt = match pr.terminal_task {
        Some(t) => t,
        None => o.terminal,
    };
    let l1 = "progress: iterations: "@ + dec(it as nat) + ", fired: "@ + dec(fc as nat)
        + ", elapsed: "@ + dec(pr.elapsed_ms as nat) + "ms"@;
    let l2 = "terminal: "@ + tt;
    let head = match pr.reached_goal {
        Some(g) => seq![l1, l2, "reached_goal: "@ + g],
        None => seq![l1, l2],
    };
    let last = if pr.per_task.len() == 0 {
        "per_task_matches: (none)"@
    } else {
        "per_task_matches: "@ + join_seqs(pr.per_task.map_values(|e: (Seq<char>, u64)| task_entry_text(e)), ", "@)
    };
    head.push(last)
}

/// The progress report of a loop outcome as text lines joined by `\n`:
/// counts, terminal task, reached goal (when any) and the per-task match
/// counts. The report's own fields come first; the outcome's older fields
/// (cycle count, fired commands, terminal) are used only where the report
/// has nothing.
pub fn format_progress_report(outcome: &LoopOutcome) -> (out: String)
    ensures
        out@ == join_seqs(progress_lines(outcome@), "\n"@),
{
    let pr = &outcome.progress_report;
    let it = if pr.iterations != 0 {
        pr.iterations
    } else {
        outcome.iterations
    };
    let n = outcome.fired_commands.len() as u64;
    let fc = if pr.fired_count != 0 {
        pr.fired_count
    } else {
        n
    };
    let mut lines: Vec<String> = Vec::new();
    let mut l1 = String::from_str("progress: iterations: ");
    push_dec(&mut l1, it);
    l1.append(", fired: ");
    push_dec(&mut l1, fc);
    l1.append(", elapsed: ");
    push_dec(&mut l1, pr.elapsed_ms);
    l1.append("ms");
    lines.push(l1);
    let mut l2 = String::from_str("terminal: ");
    match &pr.terminal_task {
        Some(t) => l2.append(t.as_str()),
        None => l2.append(outcome.terminal.as_str()),
    }
    lines.push(l2);
    if let Some(g) = &pr.reached_goal {
        let mut l3 = String::from_str("reached_goal: ");
        l3.append(g.as_str());
        lines.push(l3);
    }
    let ghost per = counts_view(pr.per_task_matches@);
    let last = if pr.per_task_matches.len() == 0 {
        String::from_str("per_task_matches: (none)")
    } else {
        let mut entries: Vec<String> = Vec::new();
        let mut i: usize = 0;
        while i < pr.per_task_matches.len()
            invariant
                i <= pr.per_task_matches.len(),
                per == counts_view(pr.per_task_matches@),
                views(entries@) =~= per.take(i as int).map_values(
                    |e: (Seq<char>, u64)| task_entry_text(e),
                ),
            decreases pr.per_task_matches.len() - i,
        {
            let mut e = pr.per_task_matches[i].task.clone();
            e.append("=");
            push_dec(&mut e, pr.per_task_matches[i].matches);
            assert(per[i as int] == (pr.per_task_matches@[i as int].task@, pr.per_task_matches@[i as int].matches));
            assert(e@ == task_entry_text(per[i as int]));
            let ghost prev = entries@;
            entries.push(e);
            assert(views(entries@) =~= views(prev).push(task_entry_text(per[i as int])));
            assert(per.take(i + 1) =~= per.take(i as int).push(per[i as int]));
            assert(per.take(i + 1).map_values(|e: (Seq<char>, u64)| task_entry_text(e)) =~= per.take(
                i as int,
            ).map_values(|e: (Seq<char>, u64)| task_entry_text(e)).push(task_entry_text(per[i as int])));
            i = i + 1;
        }
        assert(per.take(per.len() as int) =~= per);
        let mut l = String::from_str("per_task_matches: ");
        let joined = join_strings(&entries, ", ");
        l.append(joined.as_str());
        l
    };
    lines.push(last);
    let out = join_strings(&lines, "\n");
    assert(views(lines@) =~= progress_lines(outcome@));
    out
}

// ---------------------------------------------------------------------------
// Laws
// ---------------------------------------------------------------------------

/// One full cycle: start it, then observe its step (a budget stop wins).
pub open spec fn cycle(
    s: LoopRunView,
    before: Seq<char>,
    step: StepView,
    verdict: GoalVerdict,
    after: Seq<char>,
    elapsed_ms: u64,
) -> (LoopRunView, DecisionView) {
    let (s1, stop) = s.begin(elapsed_ms);
    match stop {
        Some(o) => (s1, DecisionView::Finish(o)),
        None => s1.observe(before, step, verdict, after, elapsed_ms),
    }
}

/// Without a goal the goal verdict has no effect at all: the next state and
/// the decision are the same whatever the verdict.
pub proof fn law_goal_verdict_ignored_without_goal(
    s: LoopRunView,
    before: Seq<char>,
    step: StepView,
    v1: GoalVerdict,
    v2: GoalVerdict,
    after: Seq<char>,
    elapsed_ms: u64,
)
    requires
        s.goal is None,
    ensures
        s.observe(before, step, v1, after, elapsed_ms) == s.observe(before, step, v2, after, elapsed_ms),
{
}

/// In goal mode the goal verdict of a cycle that ran (anything but an I/O
/// error) decides at once: `Reached` finishes the loop with `GoalReached`
/// and terminal `goal_reached`, `Failed` with `GoalTimeout` and terminal
/// `goal_timeout`; both count the cycle and report the goal's descriptor.
/// `NotYet` never ends the loop for a goal reason.
pub proof fn law_goal_verdict_decides(
    s: LoopRunView,
    before: Seq<char>,
    step: StepView,
    verdict: GoalVerdict,
    after: Seq<char>,
    elapsed_ms: u64,
)
    requires
        s.goal is Some,
        !(step is Error),
    ensures
        verdict == GoalVerdict::Reached ==> (s.observe(before, step, verdict, after, elapsed_ms).1 matches DecisionView::Finish(o)
            && o.reason == LoopStopReason::GoalReached && o.terminal == "goal_reached"@ && o.iterations == s.iterations
            && o.progress.reached_goal == s.goal),
        verdict == GoalVerdict::Failed ==> (s.observe(before, step, verdict, after, elapsed_ms).1 matches DecisionView::Finish(o)
            && o.reason == LoopStopReason::GoalTimeout && o.terminal == "goal_timeout"@ && o.iterations == s.iterations
            && o.progress.reached_goal == s.goal),
        verdict == GoalVerdict::NotYet ==> !(s.observe(before, step, verdict, after, elapsed_ms).1 matches DecisionView::Finish(o)
            && (o.reason == LoopStopReason::GoalReached || o.reason == LoopStopReason::GoalTimeout)),
{
}

/// With recovery disabled (threshold 0 or no hook) the loop never asks for recovery.
pub proof fn law_no_recovery_when_disabled(
    s: LoopRunView,
    before: Seq<char>,
    step: StepView,
    verdict: GoalVerdict,
    after: Seq<char>,
    elapsed_ms: u64,
)
    requires
        s.wf(),
        !s.recovery_enabled || s.recover_threshold == 0,
    ensures
        (!(s.observe(before, step, verdict, after, elapsed_ms).1 is Recover)),
{
}

/// The inputs of one observed cycle.
pub struct CycleInput {
    /// Current task before the cycle.
    pub before: Seq<char>,
    /// What the cycle did.
    pub step: StepView,
    /// The goal verdict after it.
    pub verdict: GoalVerdict,
    /// Current task after the cycle.
    pub after: Seq<char>,
    /// Time since the loop started.
    pub elapsed_ms: u64,
}

/// The state after the cycles `ins`, in order, and each cycle's decision.
pub open spec fn run_cycles(s: LoopRunView, ins: Seq<CycleInput>) -> (LoopRunView, Seq<DecisionView>)
    decreases ins.len(),
{
    if ins.len() == 0 {
        (s, Seq::empty())
    } else {
        let (p, ds) = run_cycles(s, ins.drop_last());
        let c = ins.last();
        let (q, d) = cycle(p, c.before, c.step, c.verdict, c.after, c.elapsed_ms);
        (q, ds.push(d))
    }
}

/// The same state with recovery switched off (threshold 0, no hook).
pub open spec fn without_recovery(s: LoopRunView) -> LoopRunView {
    LoopRunView { recover_threshold: 0, recovery_enabled: false, ..s }
}

proof fn lemma_cycle_without_recovery(
    s: LoopRunView,
    before: Seq<char>,
    step: StepView,
    verdict: GoalVerdict,
    after: Seq<char>,
    elapsed_ms: u64,
)
    requires
        !s.recovery_enabled,
    ensures
        ({
            let (a, da) = cycle(s, before, step, verdict, after, elapsed_ms);
            let (b, db) = cycle(without_recovery(s), before, step, verdict, after, elapsed_ms);
            &&& !a.recovery_enabled
            &&& without_recovery(a) == b
            &&& da == db
            &&& !(da is Recover)
        }),
{
}

proof fn lemma_runs_without_recovery(s: LoopRunView, ins: Seq<CycleInput>)
    requires
        !s.recovery_enabled,
    ensures
        !run_cycles(s, ins).0.recovery_enabled,
        without_recovery(run_cycles(s, ins).0) == run_cycles(without_recovery(s), ins).0,
        run_cycles(s, ins).1 == run_cycles(without_recovery(s), ins).1,
        forall|i: int| 0 <= i < ins.len() ==> !(#[trigger] run_cycles(s, ins).1[i] is Recover),
        run_cycles(s, ins).1.len() == ins.len(),
    decreases ins.len(),
{
    if ins.len() > 0 {
        lemma_runs_without_recovery(s, ins.drop_last());
        let p = run_cycles(s, ins.drop_last()).0;
        let c = ins.last();
        lemma_cycle_without_recovery(p, c.before, c.step, c.verdict, c.after, c.elapsed_ms);
        let ds = run_cycles(s, ins).1;
        assert forall|i: int| 0 <= i < ins.len() implies !(#[trigger] ds[i] is Recover) by {
            if i < ins.len() - 1 {
                assert(ds[i] == run_cycles(s, ins.drop_last()).1[i]);
            }
        }
    }
}

/// A loop whose recovery is off (threshold 0, or no hook) is the plain loop:
/// over any cycles, every decision, every outcome included, is the one the
/// loop without threshold and hook makes, and none asks for recovery, so a
/// hook given is never invoked.
pub proof fn law_disabled_recovery_is_plain_loop(
    max_iterations: u64,
    threshold: u32,
    has_hook: bool,
    goal: Option<Seq<char>>,
    ins: Seq<CycleInput>,
)
    requires
        threshold == 0 || !has_hook,
    ensures
        run_cycles(initial_run(max_iterations, threshold, has_hook, goal), ins).1 == run_cycles(
            initial_run(max_iterations, 0, false, goal),
            ins,
        ).1,
        forall|i: int|
            0 <= i < ins.len() ==> !(#[trigger] run_cycles(
                initial_run(max_iterations, threshold, has_hook, goal),
                ins,
            ).1[i] is Recover),
{
    let s = initial_run(max_iterations, threshold, has_hook, goal);
    assert(without_recovery(s) == initial_run(max_iterations, 0, false, goal));
    lemma_runs_without_recovery(s, ins);
}

/// A cycle whose task matched (fired or not) resets the NoMatch streak; a
/// miss raises it by one (saturating).
pub proof fn law_streak_follows_matches(
    s: LoopRunView,
    before: Seq<char>,
    step: StepView,
    verdict: GoalVerdict,
    after: Seq<char>,
    elapsed_ms: u64,
)
    ensures
        (step is Fired || step is NoFire) ==> s.observe(before, step, verdict, after, elapsed_ms).0.streak
            == 0,
        (step is NoMatch || step is FiredUnverified) ==> s.observe(
            before,
            step,
            verdict,
            after,
            elapsed_ms,
        ).0.streak == sat_inc(s.streak),
{
}

/// Every outcome the loop produces is consistent: it never counts more
/// cycles than the budget, its report repeats the cycle and fired counts, and
/// it carries a goal descriptor exactly when a goal stopped it.
pub proof fn law_outcomes_consistent(
    s: LoopRunView,
    before: Seq<char>,
    step: StepView,
    verdict: GoalVerdict,
    after: Seq<char>,
    elapsed_ms: u64,
)
    requires
        s.wf(),
        s.iterations >= 1,
    ensures
        ({
            let d = s.observe(before, step, verdict, after, elapsed_ms).1;
            match d {
                DecisionView::Finish(o) => {
                    &&& o.iterations <= s.max_iterations
                    &&& o.progress.iterations == o.iterations
                    &&& o.progress.fired_count == o.fired.len() as u64
                    &&& (o.progress.reached_goal is Some <==> (o.reason == LoopStopReason::GoalReached
                        || o.reason == LoopStopReason::GoalTimeout))
                    &&& (o.progress.reached_goal is Some ==> o.progress.reached_goal == s.goal)
                },
                _ => true,
            }
        }),
        ({
            let stop = s.recovered(false, elapsed_ms).1;
            match stop {
                Some(o) => o.iterations + 1 == s.iterations && o.reason == LoopStopReason::ExecuteError,
                None => false,
            }
        }),
{
}

/// Capture failures stop the loop with `CaptureError`; firing failures and
/// failed verification captures stop it with `ExecuteError`. In either case
/// the failed cycle is not counted.
pub proof fn law_error_classification(s: LoopRunView, e: Seq<char>, after: Seq<char>, elapsed_ms: u64)
    requires
        s.iterations >= 1,
    ensures
        (s.observe(after, StepView::Error("capture: "@ + e), GoalVerdict::NotYet, after, elapsed_ms).1
            matches DecisionView::Finish(o) && o.reason == LoopStopReason::CaptureError && o.iterations
            == s.iterations - 1),
        (s.observe(after, StepView::Error("execute: "@ + e), GoalVerdict::NotYet, after, elapsed_ms).1
            matches DecisionView::Finish(o) && o.reason == LoopStopReason::ExecuteError),
        (s.observe(after, StepView::Error("verify_capture: "@ + e), GoalVerdict::NotYet, after, elapsed_ms).1
            matches DecisionView::Finish(o) && o.reason == LoopStopReason::ExecuteError),
{
    reveal_strlit("capture: ");
    reveal_strlit("capture");
    reveal_strlit("execute: ");
    reveal_strlit("verify_capture: ");
    assert(("capture: "@ + e).subrange(0, 7) =~= "capture"@);
    assert(("execute: "@ + e)[0] != "capture"@[0]);
    assert(("verify_capture: "@ + e)[0] != "capture"@[0]);
}

/// `k` cycles in which nothing matches.
pub open spec fn idle_run(s: LoopRunView, task: Seq<char>, k: nat) -> LoopRunView
    decreases k,
{
    if k == 0 {
        s
    } else {
        cycle(idle_run(s, task, (k - 1) as nat), task, StepView::NoMatch, GoalVerdict::NotYet, task, 0).0
    }
}

/// A loop without goal and recovery on which nothing ever matches keeps
/// going for exactly its budget and then stops with `MaxIterations`,
/// reporting all `max_iterations` cycles and no fired command.
pub proof fn law_idle_loop_uses_whole_budget(max_iterations: u64, threshold: u32, task: Seq<char>, k: nat)
    requires
        k <= max_iterations,
    ensures
        ({
            let s0 = initial_run(max_iterations, threshold, false, None);
            let sk = idle_run(s0, task, k);
            &&& sk.iterations == k
            &&& sk.fired.len() == 0
            &&& k < max_iterations ==> cycle(sk, task, StepView::NoMatch, GoalVerdict::NotYet, task, 0).1
                is Continue
            &&& k == max_iterations ==> (sk.begin(0).1 matches Some(o) && o.reason
                == LoopStopReason::MaxIterations && o.iterations == max_iterations && o.fired.len() == 0)
        }),
    decreases k,
{
    let s0 = initial_run(max_iterations, threshold, false, None);
    if k > 0 {
        law_idle_loop_uses_whole_budget(max_iterations, threshold, task, (k - 1) as nat);
    }
    let sk = idle_run(s0, task, k);
    assert(sk.max_iterations == max_iterations && sk.goal is None && !sk.recovery_enabled) by {
        lemma_idle_run_keeps_config(s0, task, k);
    }
}

proof fn lemma_idle_run_keeps_config(s: LoopRunView, task: Seq<char>, k: nat)
    ensures
        idle_run(s, task, k).max_iterations == s.max_iterations,
        idle_run(s, task, k).goal == s.goal,
        idle_run(s, task, k).recovery_enabled == s.recovery_enabled,
        idle_run(s, task, k).fired == s.fired,
    decreases k,
{
    if k > 0 {
        lemma_idle_run_keeps_config(s, task, (k - 1) as nat);
    }
}

} // verus!
