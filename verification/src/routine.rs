//! Routine definitions (several pipelines run back to back) and their
//! fail-closed validation.
//!
//! Reading the TOML file and probing pipeline directories is outside work;
//! validation receives, for every step, what the probe of its pipeline
//! directory found ([`StepProbe`]) and decides exactly as a single pass over
//! the steps would: the first violation, in step order, is the error.
use vstd::prelude::*;
use vstd::string::*;

use crate::text::{chars_of, dec, is_blank, join_seqs, join_strings, owned, push_dec, seq_eq, trim_seq, views};

verus! {

/// Default cycle budget of a step.
pub const DEFAULT_STEP_MAX_ITERS: u64 = 100;

/// Default loop interval of a step, in seconds.
pub const DEFAULT_STEP_INTERVAL_SECS: u64 = 1;

/// Errors of loading, validating or running a routine.
#[derive(Debug, Clone, PartialEq, Eq)]
pub enum RoutineError {
    /// The routine file could not be read.
    ReadFailed { path: String, reason: String },
    /// The routine TOML could not be parsed.
    ParseFailed { path: String, reason: String },
    /// The routine has no steps.
    EmptySteps { name: String },
    /// A step's pipeline directory resolves to no existing directory.
    PipelineDirNotFound { step: String, dir: String, root: String },
    /// A step's pipeline could not be loaded (or is empty).
    PipelineLoadFailed { step: String, dir: String, reason: String },
    /// A step's start task is not a task of its pipeline.
    StartTaskNotFound { step: String, start_task: String, dir: String, available: String },
    /// A step parameter is out of range.
    BadParam { step: String, field: &'static str, reason: String },
    /// The routine name is blank.
    EmptyName,
    /// A step failed to start.
    InvocationFailed { step: String, reason: String },
    /// The step at `index` has a blank name.
    EmptyStepName { index: usize },
}

/// Abstract routine error.
pub enum ErrorView {
    ReadFailed { path: Seq<char>, reason: Seq<char> },
    ParseFailed { path: Seq<char>, reason: Seq<char> },
    EmptySteps { name: Seq<char> },
    PipelineDirNotFound { step: Seq<char>, dir: Seq<char>, root: Seq<char> },
    PipelineLoadFailed { step: Seq<char>, dir: Seq<char>, reason: Seq<char> },
    StartTaskNotFound { step: Seq<char>, start_task: Seq<char>, dir: Seq<char>, available: Seq<char> },
    BadParam { step: Seq<char>, field: Seq<char>, reason: Seq<char> },
    EmptyName,
    InvocationFailed { step: Seq<char>, reason: Seq<char> },
    EmptyStepName { index: usize },
}

impl View for RoutineError {
    type V = ErrorView;

    open spec fn view(&self) -> ErrorView {
        match self {
            RoutineError::ReadFailed { path, reason } => ErrorView::ReadFailed { path: path@, reason: reason@ },
            RoutineError::ParseFailed { path, reason } => ErrorView::ParseFailed { path: path@, reason: reason@ },
            RoutineError::EmptySteps { name } => ErrorView::EmptySteps { name: name@ },
            RoutineError::PipelineDirNotFound { step, dir, root } => ErrorView::PipelineDirNotFound {
                step: step@,
                dir: dir@,
                root: root@,
            },
            RoutineError::PipelineLoadFailed { step, dir, reason } => ErrorView::PipelineLoadFailed {
                step: step@,
                dir: dir@,
                reason: reason@,
            },
            RoutineError::StartTaskNotFound { step, start_task, dir, available } =>
                ErrorView::StartTaskNotFound {
                step: step@,
                start_task: start_task@,
                dir: dir@,
                available: available@,
            },
            RoutineError::BadParam { step, field, reason } => ErrorView::BadParam {
                step: step@,
                field: field@,
                reason: reason@,
            },
            RoutineError::EmptyName => ErrorView::EmptyName,
            RoutineError::InvocationFailed { step, reason } => ErrorView::InvocationFailed {
                step: step@,
                reason: reason@,
            },
            RoutineError::EmptyStepName { index } => ErrorView::EmptyStepName { index: *index },
        }
    }
}

/// The user-facing message of a routine error.
pub open spec fn error_message_spec(e: ErrorView) -> Seq<char> {
    match e {
        ErrorView::ReadFailed { path, reason } => "routine ファイル読込失敗 "@ + path + ": "@ + reason,
        ErrorView::ParseFailed { path, reason } => "routine TOML パース失敗 "@ + path + ": "@ + reason,
        ErrorView::EmptySteps { name } => "routine '"@ + name + "' の steps が空です: 少なくとも1ステップ必要です"@,
        ErrorView::PipelineDirNotFound { step, dir, root } => "ステップ '"@ + step
            + "' の pipeline_dir が見つかりません: "@ + dir + " (root="@ + root + ")"@,
        ErrorView::PipelineLoadFailed { step, dir, reason } => "ステップ '"@ + step
            + "' の pipeline 読込失敗 "@ + dir + ": "@ + reason,
        ErrorView::StartTaskNotFound { step, start_task, dir, available } => "ステップ '"@ + step
            + "' の start_task '"@ + start_task + "' が pipeline "@ + dir + " に存在しません (利用可能: "@
            + available + ")"@,
        ErrorView::BadParam { step, field, reason } => "ステップ '"@ + step + "' の "@ + field
            + " が不正です: "@ + reason,
        ErrorView::EmptyName => "routine 名が空です"@,
        ErrorView::InvocationFailed { step, reason } => "ステップ '"@ + step + "' の実行に失敗: "@ + reason,
        ErrorView::EmptyStepName { index } => dec(index as nat) + " 番目のステップ名が空です"@,
    }
}

impl RoutineError {
    /// The user-facing message of this error.
    pub fn message(&self) -> (out: String)
        ensures
            out@ == error_message_spec(self@),
    {
        match self {
            RoutineError::ReadFailed { path, reason } => {
                let mut s = String::from_str("routine ファイル読込失敗 ");
                s.append(path.as_str());
                s.append(": ");
                s.append(reason.as_str());
                s
            },
            RoutineError::ParseFailed { path, reason } => {
                let mut s = String::from_str("routine TOML パース失敗 ");
                s.append(path.as_str());
                s.append(": ");
                s.append(reason.as_str());
                s
            },
            RoutineError::EmptySteps { name } => {
                let mut s = String::from_str("routine '");
                s.append(name.as_str());
                s.append("' の steps が空です: 少なくとも1ステップ必要です");
                s
            },
            RoutineError::PipelineDirNotFound { step, dir, root } => {
                let mut s = String::from_str("ステップ '");
                s.append(step.as_str());
                s.append("' の pipeline_dir が見つかりません: ");
                s.append(dir.as_str());
                s.append(" (root=");
                s.append(root.as_str());
                s.append(")");
                s
            },
            RoutineError::PipelineLoadFailed { step, dir, reason } => {
                let mut s = String::from_str("ステップ '");
                s.append(step.as_str());
                s.append("' の pipeline 読込失敗 ");
                s.append(dir.as_str());
                s.append(": ");
                s.append(reason.as_str());
                s
            },
            RoutineError::StartTaskNotFound { step, start_task, dir, available } => {
                let mut s = String::from_str("ステップ '");
                s.append(step.as_str());
                s.append("' の start_task '");
                s.append(start_task.as_str());
                s.append("' が pipeline ");
                s.append(dir.as_str());
                s.append(" に存在しません (利用可能: ");
                s.append(available.as_str());
                s.append(")");
                s
            },
            RoutineError::BadParam { step, field, reason } => {
                let mut s = String::from_str("ステップ '");
                s.append(step.as_str());
                s.append("' の ");
                s.append(field);
                s.append(" が不正です: ");
                s.append(reason.as_str());
                s
            },
            RoutineError::EmptyName => String::from_str("routine 名が空です"),
            RoutineError::InvocationFailed { step, reason } => {
                let mut s = String::from_str("ステップ '");
                s.append(step.as_str());
                s.append("' の実行に失敗: ");
                s.append(reason.as_str());
                s
            },
            RoutineError::EmptyStepName { index } => {
                let mut s = String::new();
                push_dec(&mut s, *index as u64);
                s.append(" 番目のステップ名が空です");
                s
            },
        }
    }
}

/// What to do when a step fails.
#[derive(Debug, Clone, Copy, PartialEq, Eq)]
pub enum OnFailure {
    /// Abort the routine; the remaining steps are skipped.
    Stop,
    /// Keep the failure and continue with the next step.
    Skip,
}

impl Default for OnFailure {
    fn default() -> (r: Self)
        ensures
            r == OnFailure::Stop,
    {
        OnFailure::Stop
    }
}

/// One step of a routine: one pipeline run.
#[derive(Debug, Clone, PartialEq, Eq)]
pub struct RoutineStep {
    /// Step name.
    pub name: String,
    /// Pipeline directory (workspace-relative or absolute).
    pub pipeline_dir: String,
    /// Start task name.
    pub start_task: String,
    /// Cycle budget.
    pub max_iters: u64,
    /// Loop interval in seconds.
    pub interval: u64,
    /// Failure policy.
    pub on_failure: OnFailure,
}

/// A routine: pipelines run in order.
#[derive(Debug, Clone, PartialEq, Eq)]
pub struct RoutineDef {
    /// Routine name.
    pub name: String,
    /// Steps in execution order.
    pub steps: Vec<RoutineStep>,
}

/// What probing a step's pipeline directory found.
#[derive(Debug, Clone, PartialEq, Eq)]
pub enum StepProbe {
    /// No candidate directory exists.
    DirNotFound,
    /// The directory `dir` exists but loading its pipeline failed.
    LoadFailed { dir: String, reason: String },
    /// The pipeline in `dir` loaded with these task names.
    Loaded { dir: String, task_names: Vec<String> },
}

/// Abstract probe.
pub enum ProbeView {
    DirNotFound,
    LoadFailed { dir: Seq<char>, reason: Seq<char> },
    Loaded { dir: Seq<char>, names: Seq<Seq<char>> },
}

impl View for StepProbe {
    type V = ProbeView;

    open spec fn view(&self) -> ProbeView {
        match self {
            StepProbe::DirNotFound => ProbeView::DirNotFound,
            StepProbe::LoadFailed { dir, reason } => ProbeView::LoadFailed { dir: dir@, reason: reason@ },
            StepProbe::Loaded { dir, task_names } => ProbeView::Loaded { dir: dir@, names: views(task_names@) },
        }
    }
}

// ---------------------------------------------------------------------------
// Sorting task names (byte order of UTF-8 equals code point order)
// ---------------------------------------------------------------------------

/// `a` sorts strictly before `b` (lexicographic by code point).
pub open spec fn lex_lt(a: Seq<char>, b: Seq<char>) -> bool
    decreases a.len(),
{
    if b.len() == 0 {
        false
    } else if a.len() == 0 {
        true
    } else if a[0] == b[0] {
        lex_lt(a.drop_first(), b.drop_first())
    } else {
        (a[0] as u32) < (b[0] as u32)
    }
}

/// Index at which `x` is inserted into `s`: before the first element that
/// sorts strictly after it.
pub open spec fn insert_pos(s: Seq<Seq<char>>, x: Seq<char>, from: int) -> int
    decreases s.len() - from,
{
    if from >= s.len() || from < 0 {
        s.len() as int
    } else if lex_lt(x, s[from]) {
        from
    } else {
        insert_pos(s, x, from + 1)
    }
}

/// `names` sorted (stable insertion of each name after its equals).
pub open spec fn sorted_names(names: Seq<Seq<char>>) -> Seq<Seq<char>>
    decreases names.len(),
{
    if names.len() == 0 {
        Seq::empty()
    } else {
        let s = sorted_names(names.drop_last());
        s.insert(insert_pos(s, names.last(), 0), names.last())
    }
}

/// Whether `a` sorts strictly before `b`.
pub fn lex_lt_chars(a: &Vec<char>, b: &Vec<char>) -> (r: bool)
    ensures
        r == lex_lt(a@, b@),
{
    let mut i: usize = 0;
    assert(a@.skip(0) =~= a@);
    assert(b@.skip(0) =~= b@);
    while i < a.len() && i < b.len()
        invariant
            i <= a.len(),
            i <= b.len(),
            lex_lt(a@, b@) == lex_lt(a@.skip(i as int), b@.skip(i as int)),
        decreases a.len() - i,
    {
        assert(a@.skip(i as int).drop_first() =~= a@.skip(i + 1));
        assert(b@.skip(i as int).drop_first() =~= b@.skip(i + 1));
        assert(a@.skip(i as int)[0] == a@[i as int]);
        assert(b@.skip(i as int)[0] == b@[i as int]);
        if a[i] != b[i] {
            return (a[i] as u32) < (b[i] as u32);
        }
        i = i + 1;
    }
    assert(a@.skip(i as int).len() == a@.len() - i);
    assert(b@.skip(i as int).len() == b@.len() - i);
    i < b.len()
}

proof fn lemma_insert_pos_bounds(s: Seq<Seq<char>>, x: Seq<char>, from: int)
    requires
        0 <= from <= s.len(),
    ensures
        from <= insert_pos(s, x, from) <= s.len(),
    decreases s.len() - from,
{
    if from < s.len() && !lex_lt(x, s[from]) {
        lemma_insert_pos_bounds(s, x, from + 1);
    }
}

fn sort_names(names: &Vec<String>) -> (out: Vec<String>)
    ensures
        views(out@) == sorted_names(views(names@)),
{
    let mut out: Vec<String> = Vec::new();
    let mut keys: Vec<Vec<char>> = Vec::new();
    let mut i: usize = 0;
    while i < names.len()
        invariant
            i <= names.len(),
            keys@.len() == out@.len(),
            forall|k: int| 0 <= k < out@.len() ==> keys@[k]@ == out@[k]@,
            views(out@) == sorted_names(views(names@.take(i as int))),
        decreases names.len() - i,
    {
        let x = chars_of(names[i].as_str());
        let ghost s = views(out@);
        let mut j: usize = 0;
        while j < out.len() && !lex_lt_chars(&x, &keys[j])
            invariant
                j <= out.len(),
                keys@.len() == out@.len(),
                forall|k: int| 0 <= k < out@.len() ==> keys@[k]@ == out@[k]@,
                s == views(out@),
                insert_pos(s, x@, j as int) == insert_pos(s, x@, 0),
            decreases out.len() - j,
        {
            j = j + 1;
        }
        proof {
            lemma_insert_pos_bounds(s, x@, 0);
        }
        assert(views(names@.take(i + 1)).drop_last() =~= views(names@.take(i as int)));
        assert(views(names@.take(i + 1)).last() == x@);
        out.insert(j, names[i].clone());
        keys.insert(j, x);
        assert(views(out@) =~= s.insert(j as int, x@));
        i = i + 1;
    }
    assert(names@.take(names@.len() as int) =~= names@);
    out
}

// ---------------------------------------------------------------------------
// Validation
// ---------------------------------------------------------------------------

/// The error of step `index` on its own (parameters, then its probe), if any.
pub open spec fn step_error(step: RoutineStep, index: usize, root: Seq<char>, probe: ProbeView) -> Option<
    ErrorView,
> {
    if trim_seq(step.name@).len() == 0 {
        Some(ErrorView::EmptyStepName { index })
    } else if step.interval == 0 {
        Some(
            ErrorView::BadParam {
                step: step.name@,
                field: "interval"@,
                reason: "1 以上の秒数を指定してください"@,
            },
        )
    } else if step.max_iters == 0 {
        Some(ErrorView::BadParam { step: step.name@, field: "max_iters"@, reason: "1 以上を指定してください"@ })
    } else {
        match probe {
            ProbeView::DirNotFound => Some(
                ErrorView::PipelineDirNotFound { step: step.name@, dir: step.pipeline_dir@, root },
            ),
            ProbeView::LoadFailed { dir, reason } => Some(
                ErrorView::PipelineLoadFailed { step: step.name@, dir, reason },
            ),
            ProbeView::Loaded { dir, names } => if names.len() == 0 {
                Some(
                    ErrorView::PipelineLoadFailed {
                        step: step.name@,
                        dir,
                        reason: "pipeline ディレクトリに *.toml がありません"@,
                    },
                )
            } else if !names.contains(step.start_task@) {
                Some(
                    ErrorView::StartTaskNotFound {
                        step: step.name@,
                        start_task: step.start_task@,
                        dir,
                        available: join_seqs(sorted_names(names), ", "@),
                    },
                )
            } else {
                None
            },
        }
    }
}

/// The first step error from index `i` on, if any.
pub open spec fn first_step_error(
    steps: Seq<RoutineStep>,
    root: Seq<char>,
    probes: Seq<ProbeView>,
    i: int,
) -> Option<ErrorView>
    decreases steps.len() - i,
{
    if i < 0 || i >= steps.len() {
        None
    } else {
        match step_error(steps[i], i as usize, root, probes[i]) {
            Some(e) => Some(e),
            None => first_step_error(steps, root, probes, i + 1),
        }
    }
}

/// The result of validating a routine: a blank name, then no steps, then the
/// first failing step in order.
pub open spec fn validate_spec(def: RoutineDef, root: Seq<char>, probes: Seq<ProbeView>) -> Option<
    ErrorView,
> {
    if trim_seq(def.name@).len() == 0 {
        Some(ErrorView::EmptyName)
    } else if def.steps@.len() == 0 {
        Some(ErrorView::EmptySteps { name: def.name@ })
    } else {
        first_step_error(def.steps@, root, probes, 0)
    }
}

/// The views of a list of probes.
pub open spec fn probe_views(v: Seq<StepProbe>) -> Seq<ProbeView> {
    v.map_values(|p: StepProbe| p@)
}

fn contains_name(names: &Vec<String>, target: &str) -> (r: bool)
    ensures
        r == views(names@).contains(target@),
{
    let t = chars_of(target);
    let mut i: usize = 0;
    while i < names.len()
        invariant
            i <= names.len(),
            t@ == target@,
            forall|k: int| 0 <= k < i ==> names@[k]@ != target@,
        decreases names.len() - i,
    {
        let n = chars_of(names[i].as_str());
        if seq_eq(&n, &t) {
            assert(views(names@)[i as int] == target@);
            return true;
        }
        i = i + 1;
    }
    assert forall|k: int| 0 <= k < views(names@).len() implies views(names@)[k] != target@ by {
        assert(views(names@)[k] == names@[k]@);
    }
    false
}

fn validate_step(step: &RoutineStep, index: usize, root: &str, probe: &StepProbe) -> (r: Option<
    RoutineError,
>)
    ensures
        match r {
            Some(e) => step_error(*step, index, root@, probe@) == Some(e@),
            None => step_error(*step, index, root@, probe@) is None,
        },
{
    if is_blank(step.name.as_str()) {
        return Some(RoutineError::EmptyStepName { index });
    }
    if step.interval == 0 {
        return Some(
            RoutineError::BadParam {
                step: step.name.clone(),
                field: "interval",
                reason: String::from_str("1 以上の秒数を指定してください"),
            },
        );
    }
    if step.max_iters == 0 {
        return Some(
            RoutineError::BadParam {
                step: step.name.clone(),
                field: "max_iters",
                reason: String::from_str("1 以上を指定してください"),
            },
        );
    }
    match probe {
        StepProbe::DirNotFound => Some(
            RoutineError::PipelineDirNotFound {
                step: step.name.clone(),
                dir: step.pipeline_dir.clone(),
                root: owned(root),
            },
        ),
        StepProbe::LoadFailed { dir, reason } => Some(
            RoutineError::PipelineLoadFailed {
                step: step.name.clone(),
                dir: dir.clone(),
                reason: reason.clone(),
            },
        ),
        StepProbe::Loaded { dir, task_names } => {
            if task_names.len() == 0 {
                return Some(
                    RoutineError::PipelineLoadFailed {
                        step: step.name.clone(),
                        dir: dir.clone(),
                        reason: String::from_str("pipeline ディレクトリに *.toml がありません"),
                    },
                );
            }
            if !contains_name(task_names, step.start_task.as_str()) {
                let sorted = sort_names(task_names);
                return Some(
                    RoutineError::StartTaskNotFound {
                        step: step.name.clone(),
                        start_task: step.start_task.clone(),
                        dir: dir.clone(),
                        available: join_strings(&sorted, ", "),
                    },
                );
            }
            None
        },
    }
}

impl RoutineDef {
    /// Validates the routine fail-closed against the probes of its steps'
    /// pipeline directories (`probes[i]` belongs to `steps[i]`): the routine
    /// name and every step name must be non-blank, there must be a step,
    /// every interval and cycle budget must be at least 1, every pipeline
    /// directory must resolve and load a non-empty pipeline containing the
    /// start task. The first violation is returned.
    pub fn validate(&self, root: &str, probes: &Vec<StepProbe>) -> (r: Result<(), RoutineError>)
        requires
            probes@.len() == self.steps@.len(),
        ensures
            match r {
                Ok(()) => validate_spec(*self, root@, probe_views(probes@)) is None,
                Err(e) => validate_spec(*self, root@, probe_views(probes@)) == Some(e@),
            },
    {
        if is_blank(self.name.as_str()) {
            return Err(RoutineError::EmptyName);
        }
        if self.steps.len() == 0 {
            return Err(RoutineError::EmptySteps { name: self.name.clone() });
        }
        let ghost pv = probe_views(probes@);
        let mut i: usize = 0;
        while i < self.steps.len()
            invariant
                i <= self.steps.len(),
                probes@.len() == self.steps@.len(),
                pv == probe_views(probes@),
                validate_spec(*self, root@, pv) == first_step_error(
                    self.steps@,
                    root@,
                    pv,
                    i as int,
                ),
            decreases self.steps.len() - i,
        {
            assert(pv[i as int] == probes@[i as int]@);
            match validate_step(&self.steps[i], i, root, &probes[i]) {
                Some(e) => {
                    assert(first_step_error(self.steps@, root@, pv, i as int) == Some(e@));
                    return Err(e);
                },
                None => {},
            }
            i = i + 1;
        }
        Ok(())
    }
}

/// Step `step` is runnable as its probe `probe` found it: a non-blank name,
/// an interval and a cycle budget of at least 1, and a pipeline directory
/// that loaded and lists the start task.
pub open spec fn step_runnable(step: RoutineStep, probe: ProbeView) -> bool {
    &&& trim_seq(step.name@).len() > 0
    &&& step.interval > 0
    &&& step.max_iters > 0
    &&& probe matches ProbeView::Loaded { names, .. } && names.contains(step.start_task@)
}

/// The step an error is about: `index` for a blank step name, the step's
/// name for the other step errors.
pub open spec fn error_about_step(e: ErrorView, step: RoutineStep, index: usize) -> bool {
    match e {
        ErrorView::EmptyStepName { index: k } => k == index,
        ErrorView::BadParam { step: n, .. } => n == step.name@,
        ErrorView::PipelineDirNotFound { step: n, .. } => n == step.name@,
        ErrorView::PipelineLoadFailed { step: n, .. } => n == step.name@,
        ErrorView::StartTaskNotFound { step: n, .. } => n == step.name@,
        _ => false,
    }
}

proof fn lemma_step_error_none(step: RoutineStep, index: usize, root: Seq<char>, probe: ProbeView)
    ensures
        step_error(step, index, root, probe) is None <==> step_runnable(step, probe),
        step_error(step, index, root, probe) matches Some(e) ==> error_about_step(e, step, index),
{
    if let ProbeView::Loaded { names, .. } = probe {
        if names.contains(step.start_task@) {
            assert(names.len() > 0);
        }
    }
}

proof fn lemma_first_step_error(steps: Seq<RoutineStep>, root: Seq<char>, probes: Seq<ProbeView>, k: int)
    requires
        0 <= k <= steps.len(),
        probes.len() == steps.len(),
    ensures
        first_step_error(steps, root, probes, k) is None <==> forall|i: int|
            k <= i < steps.len() ==> #[trigger] step_runnable(steps[i], probes[i]),
        forall|i: int|
            k <= i < steps.len() && !step_runnable(steps[i], probes[i]) && (forall|j: int|
                k <= j < i ==> #[trigger] step_runnable(steps[j], probes[j])) ==> (first_step_error(
                steps,
                root,
                probes,
                k,
            ) matches Some(e) && error_about_step(e, steps[i], i as usize)),
    decreases steps.len() - k,
{
    if k < steps.len() {
        lemma_first_step_error(steps, root, probes, k + 1);
        lemma_step_error_none(steps[k], k as usize, root, probes[k]);
        assert forall|i: int|
            k <= i < steps.len() && !step_runnable(steps[i], probes[i]) && (forall|j: int|
                k <= j < i ==> #[trigger] step_runnable(steps[j], probes[j])) implies (first_step_error(
            steps,
            root,
            probes,
            k,
        ) matches Some(e) && error_about_step(e, steps[i], i as usize)) by {
            if i > k {
                assert(step_runnable(steps[k], probes[k]));
            }
        }
    }
}

/// A routine passes validation exactly when its name is not blank, it has a
/// step, and every one of its steps — not only the first — is runnable (see
/// [`step_runnable`]). When it fails on its steps, the error is about the
/// first step that is not runnable: its index for a blank step name, its
/// name otherwise; a start task missing from a loaded pipeline is reported
/// as `StartTaskNotFound` with the step and the task.
pub proof fn law_validate_checks_every_step(def: RoutineDef, root: Seq<char>, probes: Seq<ProbeView>)
    requires
        probes.len() == def.steps@.len(),
    ensures
        validate_spec(def, root, probes) is None <==> (trim_seq(def.name@).len() > 0 && def.steps@.len() > 0
            && forall|i: int| 0 <= i < def.steps@.len() ==> #[trigger] step_runnable(def.steps@[i], probes[i])),
        forall|i: int|
            0 <= i < def.steps@.len() && trim_seq(def.name@).len() > 0 && !step_runnable(def.steps@[i], probes[i])
                && (forall|j: int| 0 <= j < i ==> #[trigger] step_runnable(def.steps@[j], probes[j])) ==> (validate_spec(
                def,
                root,
                probes,
            ) matches Some(e) && error_about_step(e, def.steps@[i], i as usize)),
        forall|i: int|
            0 <= i < def.steps@.len() && trim_seq(def.name@).len() > 0 && (forall|j: int|
                0 <= j < i ==> #[trigger] step_runnable(def.steps@[j], probes[j])) && trim_seq(def.steps@[i].name@).len()
                > 0 && def.steps@[i].interval > 0 && def.steps@[i].max_iters > 0 && (probes[i] matches ProbeView::Loaded {
                names,
                ..
            } && names.len() > 0 && !names.contains(def.steps@[i].start_task@)) ==> (validate_spec(def, root, probes) matches Some(
                ErrorView::StartTaskNotFound { step, start_task, .. },
            ) && step == def.steps@[i].name@ && start_task == def.steps@[i].start_task@),
{
    lemma_first_step_error(def.steps@, root, probes, 0);
    assert forall|i: int|
        0 <= i < def.steps@.len() && trim_seq(def.name@).len() > 0 && (forall|j: int|
            0 <= j < i ==> #[trigger] step_runnable(def.steps@[j], probes[j])) && trim_seq(def.steps@[i].name@).len()
            > 0 && def.steps@[i].interval > 0 && def.steps@[i].max_iters > 0 && (probes[i] matches ProbeView::Loaded {
            names,
            ..
        } && names.len() > 0 && !names.contains(def.steps@[i].start_task@)) implies (validate_spec(def, root, probes) matches Some(
        ErrorView::StartTaskNotFound { step, start_task, .. },
    ) && step == def.steps@[i].name@ && start_task == def.steps@[i].start_task@) by {
        lemma_first_error_is_at(def.steps@, root, probes, 0, i);
    }
}

proof fn lemma_first_error_is_at(steps: Seq<RoutineStep>, root: Seq<char>, probes: Seq<ProbeView>, k: int, i: int)
    requires
        0 <= k <= i < steps.len(),
        probes.len() == steps.len(),
        forall|j: int| k <= j < i ==> #[trigger] step_runnable(steps[j], probes[j]),
        !step_runnable(steps[i], probes[i]),
    ensures
        first_step_error(steps, root, probes, k) == step_error(steps[i], i as usize, root, probes[i]),
    decreases i - k,
{
    lemma_step_error_none(steps[k], k as usize, root, probes[k]);
    lemma_step_error_none(steps[i], i as usize, root, probes[i]);
    if k < i {
        assert(step_runnable(steps[k], probes[k]));
        lemma_first_error_is_at(steps, root, probes, k + 1, i);
    }
}

} // verus!
