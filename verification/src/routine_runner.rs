//! Running a routine step by step and summarising it.
//!
//! Invoking a pipeline is outside work; [`RoutineRun`] decides which step
//! runs next, records what each run returned, applies the failure policy and
//! produces the summary.
use vstd::prelude::*;
use vstd::string::*;

use crate::driver::{LoopOutcome, LoopStopReason};
use crate::routine::{error_message_spec, OnFailure, RoutineDef, RoutineError, RoutineStep};
use crate::text::{bool_text, dec, push_bool, push_dec};

verus! {

/// Classification of one step's run.
#[derive(Debug, Clone, PartialEq, Eq)]
pub enum StepStatus {
    /// Finished normally (Stop, TerminalTask, GoalReached, MaxIterations).
    Completed(LoopStopReason),
    /// Failed (CaptureError, ExecuteError, GoalTimeout).
    Failed(LoopStopReason),
    /// Interrupted by the user: the routine always aborts.
    Interrupted,
    /// Not run.
    Skipped,
    /// The invoker returned an error (its message).
    InvokerError(String),
}

impl StepStatus {
    /// Whether this status is a failure (`Failed` or `InvokerError`).
    pub fn is_failure(&self) -> (r: bool)
        ensures
            r == (self is Failed || self is InvokerError),
    {
        match self {
            StepStatus::Failed(_) | StepStatus::InvokerError(_) => true,
            _ => false,
        }
    }
}

/// The record of one step.
#[derive(Debug, Clone, PartialEq, Eq)]
pub struct RoutineStepResult {
    /// Step name.
    pub step: String,
    /// Pipeline directory as written in the definition.
    pub pipeline_dir: String,
    /// Classification.
    pub status: StepStatus,
    /// Cycles run (0 when not run or on an invoker error).
    pub iterations: u64,
    /// Commands fired.
    pub fired_count: usize,
    /// Terminal task or stop label (empty when not run).
    pub terminal: String,
}

/// The summary of a routine run.
#[derive(Debug, Clone, PartialEq, Eq)]
pub struct RoutineSummary {
    /// Routine name.
    pub routine: String,
    /// Per-step records in definition order.
    pub results: Vec<RoutineStepResult>,
    /// Sum of cycles.
    pub total_iterations: u64,
    /// Sum of fired commands.
    pub total_fired: usize,
    /// Number of completed steps.
    pub completed: usize,
    /// Number of failed steps (invoker errors included).
    pub failed: usize,
    /// Number of skipped steps.
    pub skipped: usize,
    /// Whether the routine was aborted (failure under `Stop`, or interruption).
    pub aborted: bool,
}

impl RoutineSummary {
    /// Every step ran without failure and nothing was skipped or aborted.
    pub fn all_ok(&self) -> (r: bool)
        ensures
            r == (self.failed == 0 && self.skipped == 0 && !self.aborted),
    {
        self.failed == 0 && self.skipped == 0 && !self.aborted
    }
}

/// The classification of a stop reason.
pub open spec fn classify_spec(reason: LoopStopReason) -> StepStatus {
    match reason {
        LoopStopReason::Stop | LoopStopReason::TerminalTask | LoopStopReason::GoalReached
        | LoopStopReason::MaxIterations => StepStatus::Completed(reason),
        LoopStopReason::CaptureError | LoopStopReason::ExecuteError | LoopStopReason::GoalTimeout =>
            StepStatus::Failed(reason),
        LoopStopReason::Interrupted => StepStatus::Interrupted,
    }
}

/// Classifies a stop reason: normal ends complete, I/O errors and goal
/// timeouts fail, interruption interrupts.
pub fn classify_reason(reason: &LoopStopReason) -> (r: StepStatus)
    ensures
        r == classify_spec(*reason),
{
    match reason {
        LoopStopReason::Stop | LoopStopReason::TerminalTask | LoopStopReason::GoalReached
        | LoopStopReason::MaxIterations => StepStatus::Completed(*reason),
        LoopStopReason::CaptureError | LoopStopReason::ExecuteError | LoopStopReason::GoalTimeout =>
            StepStatus::Failed(*reason),
        LoopStopReason::Interrupted => StepStatus::Interrupted,
    }
}

/// The label of a stop reason.
pub open spec fn reason_label_spec(reason: LoopStopReason) -> Seq<char> {
    match reason {
        LoopStopReason::Stop => "Stop アクション到達"@,
        LoopStopReason::TerminalTask => "終端タスク到達"@,
        LoopStopReason::MaxIterations => "最大サイクル到達"@,
        LoopStopReason::GoalReached => "宣言的ゴール到達"@,
        LoopStopReason::GoalTimeout => "ゴール未到達タイムアウト"@,
        LoopStopReason::Interrupted => "Ctrl+C/SIGINT で中断"@,
        LoopStopReason::CaptureError => "キャプチャエラー"@,
        LoopStopReason::ExecuteError => "発火エラー"@,
    }
}

/// The label of a stop reason (same words as the `run` command's output).
pub fn reason_label(reason: &LoopStopReason) -> (r: &'static str)
    ensures
        r@ == reason_label_spec(*reason),
{
    match reason {
        LoopStopReason::Stop => "Stop アクション到達",
        LoopStopReason::TerminalTask => "終端タスク到達",
        LoopStopReason::MaxIterations => "最大サイクル到達",
        LoopStopReason::GoalReached => "宣言的ゴール到達",
        LoopStopReason::GoalTimeout => "ゴール未到達タイムアウト",
        LoopStopReason::Interrupted => "Ctrl+C/SIGINT で中断",
        LoopStopReason::CaptureError => "キャプチャエラー",
        LoopStopReason::ExecuteError => "発火エラー",
    }
}

/// The one-line label of a status.
pub open spec fn status_label_spec(status: StepStatus) -> Seq<char> {
    match status {
        StepStatus::Completed(r) => "完了 ("@ + reason_label_spec(r) + ")"@,
        StepStatus::Failed(r) => "失敗 ("@ + reason_label_spec(r) + ")"@,
        StepStatus::Interrupted => "割り込み"@,
        StepStatus::Skipped => "スキップ"@,
        StepStatus::InvokerError(e) => "失敗 (invoker: "@ + e@ + ")"@,
    }
}

/// The one-line label of a status.
pub fn step_status_label(status: &StepStatus) -> (out: String)
    ensures
        out@ == status_label_spec(*status),
{
    match status {
        StepStatus::Completed(r) => {
            let mut s = String::from_str("完了 (");
            s.append(reason_label(r));
            s.append(")");
            s
        },
        StepStatus::Failed(r) => {
            let mut s = String::from_str("失敗 (");
            s.append(reason_label(r));
            s.append(")");
            s
        },
        StepStatus::Interrupted => String::from_str("割り込み"),
        StepStatus::Skipped => String::from_str("スキップ"),
        StepStatus::InvokerError(e) => {
            let mut s = String::from_str("失敗 (invoker: ");
            s.append(e.as_str());
            s.append(")");
            s
        },
    }
}

/// The record of a step that ran to an outcome.
pub fn step_result(step: &RoutineStep, outcome: LoopOutcome) -> (r: RoutineStepResult)
    ensures
        r.step@ == step.name@,
        r.pipeline_dir@ == step.pipeline_dir@,
        r.status == classify_spec(outcome.reason),
        r.iterations == outcome.iterations,
        r.fired_count == outcome.fired_commands@.len(),
        r.terminal@ == outcome.terminal@,
{
    let fired_count = outcome.fired_commands.len();
    RoutineStepResult {
        step: step.name.clone(),
        pipeline_dir: step.pipeline_dir.clone(),
        status: classify_reason(&outcome.reason),
        iterations: outcome.iterations,
        fired_count,
        terminal: outcome.terminal,
    }
}

/// `r` records `step` as not run: its name and pipeline directory, status
/// `Skipped`, no cycle, no fired command, no terminal task.
pub open spec fn skipped_record(step: RoutineStep, r: RoutineStepResult) -> bool {
    &&& r.step@ == step.name@
    &&& r.pipeline_dir@ == step.pipeline_dir@
    &&& r.status == StepStatus::Skipped
    &&& r.iterations == 0
    &&& r.fired_count == 0
    &&& r.terminal@.len() == 0
}

/// The record of a step that was not run.
pub fn skipped_result(step: &RoutineStep) -> (r: RoutineStepResult)
    ensures
        skipped_record(*step, r),
{
    RoutineStepResult {
        step: step.name.clone(),
        pipeline_dir: step.pipeline_dir.clone(),
        status: StepStatus::Skipped,
        iterations: 0,
        fired_count: 0,
        terminal: String::new(),
    }
}

/// Sum of cycles over records.
pub open spec fn sum_iterations(rs: Seq<RoutineStepResult>) -> int
    decreases rs.len(),
{
    if rs.len() == 0 {
        0
    } else {
        sum_iterations(rs.drop_last()) + rs.last().iterations
    }
}

/// Sum of fired commands over records.
pub open spec fn sum_fired(rs: Seq<RoutineStepResult>) -> int
    decreases rs.len(),
{
    if rs.len() == 0 {
        0
    } else {
        sum_fired(rs.drop_last()) + rs.last().fired_count
    }
}

/// Number of completed records.
pub open spec fn count_completed(rs: Seq<RoutineStepResult>) -> nat
    decreases rs.len(),
{
    if rs.len() == 0 {
        0
    } else {
        count_completed(rs.drop_last()) + if rs.last().status is Completed {
            1nat
        } else {
            0nat
        }
    }
}

/// Number of failed records (`Failed` or `InvokerError`).
pub open spec fn count_failed(rs: Seq<RoutineStepResult>) -> nat
    decreases rs.len(),
{
    if rs.len() == 0 {
        0
    } else {
        count_failed(rs.drop_last()) + if rs.last().status is Failed || rs.last().status is InvokerError {
            1nat
        } else {
            0nat
        }
    }
}

/// Number of skipped records.
pub open spec fn count_skipped(rs: Seq<RoutineStepResult>) -> nat
    decreases rs.len(),
{
    if rs.len() == 0 {
        0
    } else {
        count_skipped(rs.drop_last()) + if rs.last().status is Skipped {
            1nat
        } else {
            0nat
        }
    }
}

proof fn lemma_counts_le(rs: Seq<RoutineStepResult>)
    ensures
        count_completed(rs) + count_failed(rs) + count_skipped(rs) <= rs.len(),
    decreases rs.len(),
{
    if rs.len() > 0 {
        lemma_counts_le(rs.drop_last());
    }
}

/// The summary of a list of records: sums, counts, and the abort flag.
pub fn summarize(routine: &str, results: Vec<RoutineStepResult>, aborted: bool) -> (r: RoutineSummary)
    requires
        sum_iterations(results@) <= u64::MAX,
        sum_fired(results@) <= usize::MAX,
    ensures
        r.routine@ == routine@,
        r.results@ == results@,
        r.total_iterations == sum_iterations(results@),
        r.total_fired == sum_fired(results@),
        r.completed == count_completed(results@),
        r.failed == count_failed(results@),
        r.skipped == count_skipped(results@),
        r.aborted == aborted,
{
    let mut total_iterations: u64 = 0;
    let mut total_fired: usize = 0;
    let mut completed: usize = 0;
    let mut failed: usize = 0;
    let mut skipped: usize = 0;
    let mut i: usize = 0;
    while i < results.len()
        invariant
            i <= results.len(),
            sum_iterations(results@) <= u64::MAX,
            sum_fired(results@) <= usize::MAX,
            total_iterations == sum_iterations(results@.take(i as int)),
            total_fired == sum_fired(results@.take(i as int)),
            completed == count_completed(results@.take(i as int)),
            failed == count_failed(results@.take(i as int)),
            skipped == count_skipped(results@.take(i as int)),
        decreases results.len() - i,
    {
        let ghost t = results@.take(i + 1);
        assert(t.drop_last() =~= results@.take(i as int));
        proof {
            lemma_sums_prefix(results@, i + 1);
            lemma_counts_le(t);
        }
        total_iterations = total_iterations + results[i].iterations;
        total_fired = total_fired + results[i].fired_count;
        match &results[i].status {
            StepStatus::Completed(_) => {
                completed = completed + 1;
            },
            StepStatus::Failed(_) | StepStatus::InvokerError(_) => {
                failed = failed + 1;
            },
            StepStatus::Skipped => {
                skipped = skipped + 1;
            },
            StepStatus::Interrupted => {},
        }
        i = i + 1;
    }
    assert(results@.take(results@.len() as int) =~= results@);
    RoutineSummary {
        routine: String::from_str(routine),
        results,
        total_iterations,
        total_fired,
        completed,
        failed,
        skipped,
        aborted,
    }
}

proof fn lemma_sums_prefix(rs: Seq<RoutineStepResult>, k: int)
    requires
        0 <= k <= rs.len(),
    ensures
        sum_iterations(rs.take(k)) <= sum_iterations(rs),
        sum_fired(rs.take(k)) <= sum_fired(rs),
    decreases rs.len() - k,
{
    if k < rs.len() {
        lemma_sums_prefix(rs, k + 1);
        assert(rs.take(k + 1).drop_last() =~= rs.take(k));
    } else {
        assert(rs.take(k) =~= rs);
    }
}

/// The summary of a routine interrupted before it ran: no records, every step
/// counted as skipped, aborted.
pub fn interrupted_summary(def: &RoutineDef) -> (r: RoutineSummary)
    ensures
        r.routine@ == def.name@,
        r.results@.len() == 0,
        r.total_iterations == 0,
        r.total_fired == 0,
        r.completed == 0,
        r.failed == 0,
        r.skipped == def.steps@.len(),
        r.aborted,
{
    RoutineSummary {
        routine: def.name.clone(),
        results: Vec::new(),
        total_iterations: 0,
        total_fired: 0,
        completed: 0,
        failed: 0,
        skipped: def.steps.len(),
        aborted: true,
    }
}

// ---------------------------------------------------------------------------
// The routine run state machine
// ---------------------------------------------------------------------------

/// Whether a step result aborts the routine under the step's policy:
/// interruption always does, a failure does under `Stop`.
pub open spec fn aborts(status: StepStatus, policy: OnFailure) -> bool {
    status is Interrupted || ((status is Failed || status is InvokerError) && policy == OnFailure::Stop)
}

/// The record of a step's invocation result.
pub open spec fn invocation_record(step: RoutineStep, r: RoutineStepResult, res: Result<LoopOutcome, RoutineError>) -> bool {
    &&& r.step@ == step.name@
    &&& r.pipeline_dir@ == step.pipeline_dir@
    &&& match res {
        Ok(o) => {
            &&& r.status == classify_spec(o.reason)
            &&& r.iterations == o.iterations
            &&& r.fired_count == o.fired_commands@.len()
            &&& r.terminal@ == o.terminal@
        },
        Err(e) => {
            &&& r.status matches StepStatus::InvokerError(m) && m@ == error_message_spec(e@)
            &&& r.iterations == 0
            &&& r.fired_count == 0
            &&& r.terminal@.len() == 0
        },
    }
}

/// A routine being run: the records so far and whether it aborted.
pub struct RoutineRun {
    /// Records so far, in step order.
    pub results: Vec<RoutineStepResult>,
    /// Whether the routine aborted.
    pub aborted: bool,
}

impl RoutineRun {
    /// A run with nothing done yet.
    pub fn new() -> (r: RoutineRun)
        ensures
            r.results@.len() == 0,
            !r.aborted,
    {
        RoutineRun { results: Vec::new(), aborted: false }
    }

    /// The index of the next step to invoke. Once aborted, every remaining
    /// step is recorded as skipped and nothing more is invoked.
    pub fn next_step(&mut self, def: &RoutineDef) -> (r: Option<usize>)
        requires
            old(self).results@.len() <= def.steps@.len(),
        ensures
            final(self).aborted == old(self).aborted,
            old(self).aborted ==> r is None,
            old(self).aborted ==> final(self).results@.len() == def.steps@.len(),
            old(self).aborted ==> final(self).results@.take(old(self).results@.len() as int)
                == old(self).results@,
            old(self).aborted ==> forall|k: int|
                old(self).results@.len() <= k < def.steps@.len() ==> #[trigger] skipped_record(
                    def.steps@[k],
                    final(self).results@[k],
                ),
            !old(self).aborted ==> final(self).results@ == old(self).results@,
            !old(self).aborted && old(self).results@.len() < def.steps@.len() ==> r == Some(
                old(self).results.len(),
            ),
            !old(self).aborted && old(self).results@.len() >= def.steps@.len() ==> r is None,
    {
        if self.aborted {
            let ghost start = self.results@;
            let mut i = self.results.len();
            while i < def.steps.len()
                invariant
                    start.len() <= i <= def.steps@.len(),
                    self.results@.len() == i,
                    self.results@.take(start.len() as int) == start,
                    self.aborted,
                    forall|k: int| start.len() <= k < i ==> #[trigger] skipped_record(def.steps@[k], self.results@[k]),
                decreases def.steps.len() - i,
            {
                let r = skipped_result(&def.steps[i]);
                let ghost before = self.results@;
                self.results.push(r);
                assert(self.results@.take(start.len() as int) =~= before.take(start.len() as int));
                i = i + 1;
            }
            None
        } else if self.results.len() < def.steps.len() {
            Some(self.results.len())
        } else {
            None
        }
    }

    /// Records what invoking step `index` returned and applies its failure policy.
    pub fn record(&mut self, def: &RoutineDef, index: usize, res: Result<LoopOutcome, RoutineError>)
        requires
            !old(self).aborted,
            index == old(self).results@.len(),
            index < def.steps@.len(),
        ensures
            final(self).results@.len() == old(self).results@.len() + 1,
            final(self).results@.drop_last() == old(self).results@,
            invocation_record(def.steps@[index as int], final(self).results@.last(), res),
            final(self).aborted == aborts(final(self).results@.last().status, def.steps@[index as int].on_failure),
    {
        let step = &def.steps[index];
        let result = match res {
            Ok(outcome) => step_result(step, outcome),
            Err(e) => RoutineStepResult {
                step: step.name.clone(),
                pipeline_dir: step.pipeline_dir.clone(),
                status: StepStatus::InvokerError(e.message()),
                iterations: 0,
                fired_count: 0,
                terminal: String::new(),
            },
        };
        let stop = match &result.status {
            StepStatus::Interrupted => true,
            StepStatus::Failed(_) | StepStatus::InvokerError(_) => match step.on_failure {
                OnFailure::Stop => true,
                OnFailure::Skip => false,
            },
            _ => false,
        };
        self.aborted = stop;
        let ghost before = self.results@;
        self.results.push(result);
        assert(self.results@.drop_last() =~= before);
    }

    /// The summary once every step has a record.
    pub fn finish(self, def: &RoutineDef) -> (r: RoutineSummary)
        requires
            sum_iterations(self.results@) <= u64::MAX,
            sum_fired(self.results@) <= usize::MAX,
        ensures
            r.routine@ == def.name@,
            r.results@ == self.results@,
            r.total_iterations == sum_iterations(self.results@),
            r.total_fired == sum_fired(self.results@),
            r.completed == count_completed(self.results@),
            r.failed == count_failed(self.results@),
            r.skipped == count_skipped(self.results@),
            r.aborted == self.aborted,
    {
        summarize(def.name.as_str(), self.results, self.aborted)
    }
}

// ---------------------------------------------------------------------------
// Text output
// ---------------------------------------------------------------------------

/// One record line of the summary text.
pub open spec fn result_line(i: int, r: RoutineStepResult) -> Seq<char> {
    "  ["@ + dec(i as nat) + "] "@ + r.step@ + " ("@ + r.pipeline_dir@ + ") => "@ + status_label_spec(
        r.status,
    ) + " iterations="@ + dec(r.iterations as nat) + " fired="@ + dec(r.fired_count as nat)
        + " terminal="@ + (if r.terminal@.len() == 0 {
        "-"@
    } else {
        r.terminal@
    }) + "\n"@
}

/// The record lines of the first `k` records.
pub open spec fn result_lines(rs: Seq<RoutineStepResult>, k: int) -> Seq<char>
    decreases k,
{
    if k <= 0 {
        Seq::empty()
    } else {
        result_lines(rs, k - 1) + result_line(k - 1, rs[k - 1])
    }
}

/// The human-readable summary text.
pub open spec fn summary_text(s: RoutineSummary) -> Seq<char> {
    "=== routine '"@ + s.routine@ + "' サマリ ===\n"@ + result_lines(s.results@, s.results@.len() as int)
        + "合計: steps="@ + dec(s.results@.len()) + " completed="@ + dec(s.completed as nat) + " failed="@
        + dec(s.failed as nat) + " skipped="@ + dec(s.skipped as nat) + " iterations="@ + dec(
        s.total_iterations as nat,
    ) + " fired="@ + dec(s.total_fired as nat) + " aborted="@ + bool_text(s.aborted) + "\n"@
}

fn push_result_line(out: &mut String, i: usize, r: &RoutineStepResult)
    ensures
        final(out)@ == old(out)@ + result_line(i as int, *r),
{
    out.append("  [");
    push_dec(out, i as u64);
    out.append("] ");
    out.append(r.step.as_str());
    out.append(" (");
    out.append(r.pipeline_dir.as_str());
    out.append(") => ");
    let label = step_status_label(&r.status);
    out.append(label.as_str());
    out.append(" iterations=");
    push_dec(out, r.iterations);
    out.append(" fired=");
    push_dec(out, r.fired_count as u64);
    out.append(" terminal=");
    if r.terminal.as_str().unicode_len() == 0 {
        out.append("-");
    } else {
        out.append(r.terminal.as_str());
    }
    out.append("\n");
}

impl RoutineSummary {
    /// The human-readable summary: a header, one line per step, and a totals line.
    pub fn format_text(&self) -> (out: String)
        ensures
            out@ == summary_text(*self),
    {
        let mut out = String::from_str("=== routine '");
        out.append(self.routine.as_str());
        out.append("' サマリ ===\n");
        let ghost head = out@;
        let mut i: usize = 0;
        while i < self.results.len()
            invariant
                i <= self.results.len(),
                out@ == head + result_lines(self.results@, i as int),
            decreases self.results.len() - i,
        {
            push_result_line(&mut out, i, &self.results[i]);
            i = i + 1;
        }
        out.append("合計: steps=");
        push_dec(&mut out, self.results.len() as u64);
        out.append(" completed=");
        push_dec(&mut out, self.completed as u64);
        out.append(" failed=");
        push_dec(&mut out, self.failed as u64);
        out.append(" skipped=");
        push_dec(&mut out, self.skipped as u64);
        out.append(" iterations=");
        push_dec(&mut out, self.total_iterations);
        out.append(" fired=");
        push_dec(&mut out, self.total_fired as u64);
        out.append(" aborted=");
        push_bool(&mut out, self.aborted);
        out.append("\n");
        out
    }
}

/// One step line of the dry-run text.
pub open spec fn dry_run_line(i: int, step: RoutineStep, resolved: Option<Seq<char>>) -> Seq<char> {
    "  ["@ + dec(i as nat) + "] "@ + step.name@ + " pipeline="@ + (match resolved {
        Some(p) => p,
        None => step.pipeline_dir@,
    }) + " start="@ + step.start_task@ + " max_iters="@ + dec(step.max_iters as nat) + " interval="@
        + dec(step.interval as nat) + "s on_failure="@ + (match step.on_failure {
        OnFailure::Stop => "stop"@,
        OnFailure::Skip => "skip"@,
    }) + "\n"@
}

/// The step lines of the first `k` steps.
pub open spec fn dry_run_lines(steps: Seq<RoutineStep>, resolved: Seq<Option<String>>, k: int) -> Seq<char>
    decreases k,
{
    if k <= 0 {
        Seq::empty()
    } else {
        dry_run_lines(steps, resolved, k - 1) + dry_run_line(
            k - 1,
            steps[k - 1],
            match resolved[k - 1] {
                Some(p) => Some(p@),
                None => None,
            },
        )
    }
}

fn push_dry_run_line(out: &mut String, i: usize, step: &RoutineStep, resolved: &Option<String>)
    ensures
        final(out)@ == old(out)@ + dry_run_line(
            i as int,
            *step,
            match *resolved {
                Some(p) => Some(p@),
                None => None,
            },
        ),
{
    out.append("  [");
    push_dec(out, i as u64);
    out.append("] ");
    out.append(step.name.as_str());
    out.append(" pipeline=");
    match resolved {
        Some(p) => out.append(p.as_str()),
        None => out.append(step.pipeline_dir.as_str()),
    }
    out.append(" start=");
    out.append(step.start_task.as_str());
    out.append(" max_iters=");
    push_dec(out, step.max_iters);
    out.append(" interval=");
    push_dec(out, step.interval);
    out.append("s on_failure=");
    match step.on_failure {
        OnFailure::Stop => out.append("stop"),
        OnFailure::Skip => out.append("skip"),
    }
    out.append("\n");
}

/// The dry-run text of a routine: a header and one line per step, with the
/// resolved pipeline directory (`resolved[i]`, when it resolved) or the
/// directory as written.
pub fn format_dry_run(def: &RoutineDef, resolved: &Vec<Option<String>>) -> (out: String)
    requires
        resolved@.len() == def.steps@.len(),
    ensures
        out@ == "=== routine '"@ + def.name@ + "' (dry-run: "@ + dec(def.steps@.len()) + " ステップ) ===\n"@
            + dry_run_lines(def.steps@, resolved@, def.steps@.len() as int),
{
    let mut out = String::from_str("=== routine '");
    out.append(def.name.as_str());
    out.append("' (dry-run: ");
    push_dec(&mut out, def.steps.len() as u64);
    out.append(" ステップ) ===\n");
    let ghost head = out@;
    let mut i: usize = 0;
    while i < def.steps.len()
        invariant
            i <= def.steps.len(),
            resolved@.len() == def.steps@.len(),
            out@ == head + dry_run_lines(def.steps@, resolved@, i as int),
        decreases def.steps.len() - i,
    {
        push_dry_run_line(&mut out, i, &def.steps[i], &resolved[i]);
        i = i + 1;
    }
    out
}

/// How a step's stop reason decides the routine: a pipeline that ended
/// normally — a `Stop` action, a terminal task, its goal reached, or its
/// cycle budget used up — completes the step, which never aborts the
/// routine; a capture or execution error or a goal timeout fails it, which
/// aborts exactly under the `Stop` policy; an interruption always aborts.
pub proof fn law_stop_reason_decides_routine(reason: LoopStopReason, policy: OnFailure)
    ensures
        classify_spec(reason) is Completed <==> (reason == LoopStopReason::Stop || reason
            == LoopStopReason::TerminalTask || reason == LoopStopReason::GoalReached || reason
            == LoopStopReason::MaxIterations),
        classify_spec(reason) is Failed <==> (reason == LoopStopReason::CaptureError || reason
            == LoopStopReason::ExecuteError || reason == LoopStopReason::GoalTimeout),
        classify_spec(reason) is Interrupted <==> reason == LoopStopReason::Interrupted,
        classify_spec(reason) matches StepStatus::Completed(r) ==> r == reason,
        classify_spec(reason) matches StepStatus::Failed(r) ==> r == reason,
        aborts(classify_spec(reason), policy) <==> (reason == LoopStopReason::Interrupted || (policy
            == OnFailure::Stop && (reason == LoopStopReason::CaptureError || reason
            == LoopStopReason::ExecuteError || reason == LoopStopReason::GoalTimeout))),
{
}

/// The failure policy: an interruption aborts the routine whatever the
/// policy; a completed step never aborts it; under `Skip` nothing but an
/// interruption aborts; under `Stop` every failure (a failing stop reason or
/// an invoker error) aborts.
pub proof fn law_failure_policy(reason: LoopStopReason, policy: OnFailure, message: String)
    ensures
        aborts(classify_spec(LoopStopReason::Interrupted), policy),
        classify_spec(reason) is Completed ==> !aborts(classify_spec(reason), policy),
        policy == OnFailure::Skip ==> (aborts(classify_spec(reason), policy) <==> reason
            == LoopStopReason::Interrupted),
        policy == OnFailure::Stop ==> (aborts(classify_spec(reason), policy) <==> !(classify_spec(
            reason,
        ) is Completed)),
        aborts(StepStatus::InvokerError(message), policy) <==> policy == OnFailure::Stop,
{
}

} // verus!
