use anaden::catalog::{SelectionError, StrategyCatalog, StrategySelection};
use anaden::driver::{
    bump_task_match, build_outcome, format_progress_report, GoalVerdict, InputCommand, LoopDecision, LoopOutcome,
    LoopRun, LoopStopReason, PipelineState, ProgressReport, StepOutcome, TaskMatchCount,
};
use anaden::driver::{goal_descriptor, rescale_command, Goal, StopCondition};
use anaden::paths::{pipeline_dir_candidates, resolve_pipeline_dir, resolve_step_pipeline_dir};
use anaden::recovery::{RecoveryAction, RecoveryInput, RecoveryPolicy};
use anaden::routine::{OnFailure, RoutineDef, RoutineError, RoutineStep, StepProbe};
use anaden::routine_runner::{
    classify_reason, format_dry_run, interrupted_summary, reason_label, step_status_label, RoutineRun,
    StepStatus,
};

const EXPECTED_IDS: [&str; 6] = [
    "field_loop",
    "field_loop_pc",
    "nav_to_field",
    "nav_to_field_pc",
    "worldmap_loop",
    "_title_load",
];

// ---- catalog ----

#[test]
fn builtin_catalog_contains_exactly_six_real_pipelines() {
    let catalog = StrategyCatalog::builtin();
    let ids: Vec<&str> = catalog.strategies().iter().map(|s| s.id.as_str()).collect();
    assert_eq!(ids, EXPECTED_IDS, "catalog ids: {ids:?}");
}

#[test]
fn builtin_catalog_does_not_contain_nonexistent_fishing() {
    let catalog = StrategyCatalog::builtin();
    assert!(catalog.find("fishing").is_none());
}

#[test]
fn every_strategy_has_pipeline_dir_start_task_and_valid_algorithm() {
    let catalog = StrategyCatalog::builtin();
    for s in catalog.strategies() {
        assert!(!s.pipeline_dir.is_empty(), "{}: pipeline_dir 未設定", s.id);
        assert!(s.pipeline_dir.contains(&s.id), "{}: {}", s.id, s.pipeline_dir);
        assert!(!s.start_task.is_empty(), "{}: start_task 未設定", s.id);
        assert!(s.algorithm == "sse" || s.algorithm == "ccoeff", "{}: {}", s.id, s.algorithm);
    }
}

#[test]
fn pc_strategies_carry_windows_target_and_android_do_not() {
    let catalog = StrategyCatalog::builtin();
    for s in catalog.strategies() {
        let expect_windows = s.id.ends_with("_pc");
        assert_eq!(
            s.target.as_deref(),
            if expect_windows { Some("windows") } else { None },
            "{}: target 設定が想定と異なる (actual: {:?})",
            s.id,
            s.target
        );
    }
}

#[test]
fn to_run_args_builds_catalog_driven_argument_sequence() {
    let catalog = StrategyCatalog::builtin();
    let nav_pc = catalog.find("nav_to_field_pc").unwrap();
    assert_eq!(
        nav_pc.to_run_args(),
        vec![
            "run",
            "--algorithm",
            "ccoeff",
            "--target",
            "windows",
            "templates/pipelines/nav_to_field_pc",
            "TapToStartPc",
        ]
    );
    let field = catalog.find("field_loop").unwrap();
    assert_eq!(
        field.to_run_args(),
        vec!["run", "--algorithm", "ccoeff", "templates/pipelines/field_loop", "TapBottomStable"]
    );
}

#[test]
fn find_unknown_strategy_is_none() {
    let catalog = StrategyCatalog::builtin();
    assert!(catalog.find("nonexistent").is_none());
}

#[test]
fn default_selection_has_no_strategy_and_empty_options() {
    let catalog = StrategyCatalog::builtin();
    let sel = catalog.default_selection();
    assert_eq!(sel.strategy, None);
    assert!(sel.options.is_empty());
}

#[test]
fn set_and_get_option_roundtrip() {
    let mut sel = StrategySelection::default();
    sel.set_option("field_loop", "some_option", true);
    assert_eq!(sel.option("field_loop", "some_option"), Some(true));
    assert_eq!(sel.option("field_loop", "other"), None);
}

#[test]
fn set_option_overwrites_and_keeps_keys_ordered() {
    let mut sel = StrategySelection::default();
    sel.set_option("s", "b", true);
    sel.set_option("s", "a", true);
    sel.set_option("s", "b", false);
    assert_eq!(sel.option("s", "b"), Some(false));
    assert_eq!(sel.option("s", "a"), Some(true));
    let keys: Vec<&str> = sel.options.iter().map(|(k, _)| k.as_str()).collect();
    assert_eq!(keys, vec!["s.a", "s.b"]);
}

#[test]
fn validate_rejects_unknown_strategy() {
    let catalog = StrategyCatalog::builtin();
    let mut sel = StrategySelection { strategy: Some("bogus".to_string()), ..Default::default() };
    assert!(matches!(sel.validate(&catalog), Err(SelectionError::UnknownStrategy { .. })));
    sel = StrategySelection { strategy: Some("fishing".to_string()), ..Default::default() };
    assert!(matches!(sel.validate(&catalog), Err(SelectionError::UnknownStrategy { .. })));
    sel = StrategySelection { strategy: Some("field_loop".to_string()), ..Default::default() };
    assert!(sel.validate(&catalog).is_ok());
    sel = StrategySelection::default();
    assert!(sel.validate(&catalog).is_ok());
}

#[test]
fn validate_error_names_the_unknown_strategy() {
    let catalog = StrategyCatalog::builtin();
    let sel = StrategySelection { strategy: Some("bogus".to_string()), ..Default::default() };
    assert_eq!(sel.validate(&catalog), Err(SelectionError::UnknownStrategy { id: "bogus".to_string() }));
}

// ---- driver ----

#[test]
fn progress_report_default_is_empty() {
    let pr = ProgressReport::default();
    assert_eq!(pr.iterations, 0);
    assert_eq!(pr.fired_count, 0);
    assert!(pr.per_task_matches.is_empty());
    assert_eq!(pr.elapsed_ms, 0);
    assert_eq!(pr.terminal_task, None);
    assert_eq!(pr.reached_goal, None);
}

#[test]
fn loop_stop_reason_goal_variants_are_unit_and_comparable() {
    let reached = LoopStopReason::GoalReached;
    let timeout = LoopStopReason::GoalTimeout;
    assert_eq!(reached.clone(), reached, "GoalReached clone/equality");
    assert_eq!(timeout.clone(), timeout, "GoalTimeout clone/equality");
    assert_ne!(reached, timeout, "GoalReached != GoalTimeout");
    assert_ne!(reached, LoopStopReason::ExecuteError, "distinct from ExecuteError");
    assert_ne!(timeout, LoopStopReason::MaxIterations, "distinct from MaxIterations");
}

#[test]
fn state_new_and_current() {
    let s = PipelineState::new("Title");
    assert_eq!(s.current(), "Title");
}

#[test]
fn state_set_current_overrides() {
    let mut s = PipelineState::new("Title");
    s.set_current("Back");
    assert_eq!(s.current(), "Back");
}

#[test]
fn bump_task_match_counts_in_first_match_order() {
    let mut list: Vec<TaskMatchCount> = Vec::new();
    bump_task_match("A", &mut list);
    bump_task_match("B", &mut list);
    bump_task_match("A", &mut list);
    let got: Vec<(String, u64)> = list.iter().map(|c| (c.task.clone(), c.matches)).collect();
    assert_eq!(got, vec![("A".to_string(), 2), ("B".to_string(), 1)]);
}

#[test]
fn build_outcome_fills_progress_report() {
    let o = build_outcome(
        3,
        vec![InputCommand::Tap { x: 1, y: 2 }],
        LoopStopReason::TerminalTask,
        "End",
        vec![TaskMatchCount { task: "End".to_string(), matches: 1 }],
        1500,
        None,
    );
    assert_eq!(o.iterations, 3);
    assert_eq!(o.terminal, "End");
    assert_eq!(o.progress_report.iterations, 3);
    assert_eq!(o.progress_report.fired_count, 1);
    assert_eq!(o.progress_report.elapsed_ms, 1500);
    assert_eq!(o.progress_report.terminal_task.as_deref(), Some("End"));
}

#[test]
fn format_progress_report_is_human_readable() {
    let outcome = LoopOutcome {
        iterations: 7,
        fired_commands: vec![InputCommand::Tap { x: 1, y: 2 }, InputCommand::Tap { x: 3, y: 4 }],
        terminal: "Terminal".to_string(),
        reason: LoopStopReason::TerminalTask,
        progress_report: ProgressReport {
            iterations: 7,
            fired_count: 2,
            per_task_matches: vec![
                TaskMatchCount { task: "Title".to_string(), matches: 1 },
                TaskMatchCount { task: "LoadGame".to_string(), matches: 1 },
            ],
            elapsed_ms: 1234,
            terminal_task: Some("Terminal".to_string()),
            reached_goal: Some("loop_count=7".to_string()),
        },
    };
    let s = format_progress_report(&outcome);
    assert!(s.contains("iterations: 7"), "got: {s}");
    assert!(s.contains("fired: 2"), "got: {s}");
    assert!(s.contains("elapsed"), "got: {s}");
    assert!(s.contains("1234"), "got: {s}");
    assert!(s.contains("Terminal"), "got: {s}");
    assert!(s.contains("Title"), "got: {s}");
    assert!(s.contains("loop_count=7"), "got: {s}");
}

#[test]
fn format_progress_report_prefers_report_fields() {
    let outcome = LoopOutcome {
        iterations: 7,
        fired_commands: vec![InputCommand::Tap { x: 1, y: 2 }],
        terminal: "T".to_string(),
        reason: LoopStopReason::Stop,
        progress_report: ProgressReport { iterations: 3, fired_count: 4, ..ProgressReport::default() },
    };
    let s = format_progress_report(&outcome);
    assert!(s.contains("iterations: 3"), "got: {s}");
    assert!(!s.contains("iterations: 7"), "got: {s}");
    assert!(s.contains("fired: 4"), "got: {s}");
    assert!(s.contains("terminal: T"), "got: {s}");
}

#[test]
fn format_progress_report_falls_back_to_outcome_fields() {
    let outcome = LoopOutcome {
        iterations: 7,
        fired_commands: vec![InputCommand::Tap { x: 1, y: 2 }, InputCommand::Tap { x: 3, y: 4 }],
        terminal: "Old".to_string(),
        reason: LoopStopReason::Stop,
        progress_report: ProgressReport::default(),
    };
    let s = format_progress_report(&outcome);
    assert_eq!(
        s,
        "progress: iterations: 7, fired: 2, elapsed: 0ms\nterminal: Old\nper_task_matches: (none)"
    );
}

#[test]
fn format_progress_report_handles_default() {
    let outcome = LoopOutcome {
        iterations: 0,
        fired_commands: vec![],
        terminal: "io_error".to_string(),
        reason: LoopStopReason::CaptureError,
        progress_report: ProgressReport::default(),
    };
    let s = format_progress_report(&outcome);
    assert!(s.contains("iterations: 0"), "got: {s}");
    assert!(s.contains("fired: 0"), "got: {s}");
}

#[test]
fn loop_run_stops_at_budget() {
    let mut run = LoopRun::new(1, 3, false, None);
    assert!(run.begin_iteration(0).is_none());
    let d = run.observe_step("A", StepOutcome::NoMatch, GoalVerdict::NotYet, "A", 10);
    assert!(matches!(d, LoopDecision::Continue));
    let out = run.begin_iteration(20).unwrap();
    assert_eq!(out.reason, LoopStopReason::MaxIterations);
    assert_eq!(out.iterations, 1);
}

// ---- paths ----

#[test]
fn bare_name_candidates_include_templates_pipelines() {
    let c = pipeline_dir_candidates("login", "/root");
    assert_eq!(c, vec!["login", "/root/login", "/root/templates/pipelines/login"]);
}

#[test]
fn templates_relative_candidates_skip_second_prefix() {
    let c = pipeline_dir_candidates("templates/pipelines/login", "/root");
    assert_eq!(c, vec!["templates/pipelines/login", "/root/templates/pipelines/login"]);
}

#[test]
fn absolute_candidates_try_basename_under_root() {
    let c = pipeline_dir_candidates("/elsewhere/login", "/root");
    assert_eq!(c, vec!["/elsewhere/login", "/root/login", "/root/templates/pipelines/login"]);
}

#[test]
fn resolution_asks_in_order_and_stops_at_first_directory() {
    let asked = std::cell::RefCell::new(Vec::new());
    let is_dir = |p: &str| {
        asked.borrow_mut().push(p.to_string());
        p == "/root/login" || p == "/root/templates/pipelines/login"
    };
    assert_eq!(resolve_pipeline_dir("login", "/root", &is_dir), Some("/root/login".to_string()));
    assert_eq!(*asked.borrow(), vec!["login".to_string(), "/root/login".to_string()]);
    assert_eq!(resolve_pipeline_dir("ghost", "/root", &|_: &str| false), None);
}

#[test]
fn step_resolution_tries_templates_pipelines_for_bare_names() {
    let dirs = ["/ws/templates/pipelines/fishing".to_string()];
    let is_dir = |p: &str| dirs.iter().any(|d| d == p);
    assert_eq!(resolve_step_pipeline_dir("fishing", "/ws", &is_dir), Some(dirs[0].clone()));
    assert_eq!(resolve_step_pipeline_dir("sub/fishing", "/ws", &is_dir), None);
    assert_eq!(
        resolve_step_pipeline_dir("/gone/fishing", "/ws", &is_dir),
        Some("/ws/templates/pipelines/fishing".to_string())
    );
}

/// Resolves `input` as the pipeline loader does, with `dirs` the directories
/// that exist.
fn resolve_among(input: &str, root: &str, dirs: &[String]) -> Option<String> {
    resolve_pipeline_dir(input, root, &|p: &str| dirs.iter().any(|d| d == p))
}

fn pipeline_at(root: &str, name: &str) -> String {
    format!("{root}/templates/pipelines/{name}")
}

#[test]
fn resolves_existing_cwd_relative_path_as_is() {
    let input = pipeline_at("/ws", "x");
    assert_eq!(resolve_among(&input, "/ws", &[input.clone()]), Some(input));
}

#[test]
fn absolute_existing_path_resolves_to_itself() {
    let input = pipeline_at("/ws", "field_loop");
    assert_eq!(resolve_among(&input, "/ws", &[input.clone()]), Some(input.clone()));
}

#[test]
fn relative_template_path_falls_back_to_workspace_root() {
    let dir = pipeline_at("/ws", "field_loop_pc");
    assert_eq!(resolve_among("templates/pipelines/field_loop_pc", "/ws", &[dir.clone()]), Some(dir));
}

#[test]
fn absolute_nonexistent_tries_basename_under_root() {
    let dir = pipeline_at("/ws", "login");
    assert_eq!(resolve_among("/definitely/not/here/login", "/ws", &[dir.clone()]), Some(dir));
}

#[test]
fn bare_pipeline_name_resolves_under_templates_pipelines() {
    let dir = pipeline_at("/ws", "field_loop_pc");
    assert_eq!(resolve_among("field_loop_pc", "/ws", &[dir.clone()]), Some(dir));
}

#[test]
fn nested_relative_path_also_tries_templates_pipelines() {
    let dir = "/ws/templates/pipelines/a/b".to_string();
    assert_eq!(resolve_among("a/b", "/ws", &[dir.clone()]), Some(dir));
}

#[test]
fn nonexistent_relative_returns_none() {
    assert_eq!(resolve_among("templates/pipelines/ghost", "/ws", &[]), None);
}

#[test]
fn nonexistent_bare_name_returns_none() {
    assert_eq!(resolve_among("ghost", "/ws", &[]), None);
}

#[test]
fn templates_prefixed_path_does_not_double_join_prefix() {
    let dir = "/ws/templates/pipelines/templates/pipelines/x".to_string();
    assert_eq!(resolve_among("templates/pipelines/x", "/ws", &[dir]), None);
}

// ---- recovery ----

#[test]
fn no_recovery_for_zero_streak() {
    let policy = RecoveryPolicy::default();
    assert!(matches!(policy.recover_actions(0), RecoveryAction::NoAction));
}

#[test]
fn wait_for_low_streak() {
    let policy = RecoveryPolicy::default();
    let result = policy.recover_actions(1);
    assert!(matches!(result, RecoveryAction::Actions(_)));
    assert_eq!(result, RecoveryAction::Actions(vec![RecoveryInput::Wait { ms: 1000 }]));
}

#[test]
fn back_button_for_medium_streak() {
    let policy = RecoveryPolicy::default();
    let result = policy.recover_actions(3);
    assert!(matches!(result, RecoveryAction::Actions(_)));
    assert_eq!(
        result,
        RecoveryAction::Actions(vec![
            RecoveryInput::Wait { ms: 500 },
            RecoveryInput::Tap { x: 50, y: 2300 },
            RecoveryInput::Wait { ms: 1000 },
        ])
    );
}

#[test]
fn give_up_at_max_retries() {
    let policy = RecoveryPolicy::new(5);
    assert!(matches!(policy.recover_actions(6), RecoveryAction::GiveUp));
}

#[test]
fn default_trait_impl_preserves_max_retries_five() {
    fn require_default<T: Default>(v: T) -> T {
        v
    }
    let policy = require_default(RecoveryPolicy::default());
    assert!(matches!(policy.recover_actions(4), RecoveryAction::Actions(_)));
    assert!(matches!(policy.recover_actions(5), RecoveryAction::GiveUp));
}

#[test]
fn default_is_equivalent_to_new_five() {
    let from_default = RecoveryPolicy::default();
    let from_new = RecoveryPolicy::new(5);
    for streak in 0..=8 {
        assert_eq!(
            matches!(from_default.recover_actions(streak), RecoveryAction::GiveUp),
            matches!(from_new.recover_actions(streak), RecoveryAction::GiveUp),
            "streak {streak}"
        );
    }
}

#[test]
fn small_limit_gives_up_early() {
    let policy = RecoveryPolicy::new(1);
    assert!(matches!(policy.recover_actions(1), RecoveryAction::Actions(_)));
    assert!(matches!(policy.recover_actions(2), RecoveryAction::GiveUp));
}

// ---- routine validation ----

fn step(name: &str, dir: &str, task: &str, max_iters: u64, interval: u64) -> RoutineStep {
    RoutineStep {
        name: name.to_string(),
        pipeline_dir: dir.to_string(),
        start_task: task.to_string(),
        max_iters,
        interval,
        on_failure: OnFailure::Stop,
    }
}

fn loaded(dir: &str, names: &[&str]) -> StepProbe {
    StepProbe::Loaded { dir: dir.to_string(), task_names: names.iter().map(|s| s.to_string()).collect() }
}

#[test]
fn validate_empty_steps_is_error() {
    let def = RoutineDef { name: "empty".to_string(), steps: vec![] };
    let err = def.validate("/ws", &vec![]).expect_err("empty steps");
    assert!(matches!(err, RoutineError::EmptySteps { .. }));
}

#[test]
fn validate_empty_name_is_error() {
    let def = RoutineDef { name: "  ".to_string(), steps: vec![step("s", "login", "LoginTapTitlePc", 1, 1)] };
    let probes = vec![loaded("/ws/templates/pipelines/login", &["LoginTapTitlePc"])];
    assert!(matches!(def.validate("/ws", &probes), Err(RoutineError::EmptyName)));
}

#[test]
fn validate_nonexistent_pipeline_dir_is_error() {
    let def = RoutineDef { name: "ghost".to_string(), steps: vec![step("s", "templates/pipelines/ghost", "T", 1, 1)] };
    let err = def.validate("/ws", &vec![StepProbe::DirNotFound]).expect_err("missing pipeline dir");
    assert!(matches!(err, RoutineError::PipelineDirNotFound { .. }));
}

#[test]
fn validate_unknown_start_task_lists_available_tasks() {
    let def = RoutineDef {
        name: "badtask".to_string(),
        steps: vec![step("s", "templates/pipelines/login", "NoSuchTask", 1, 1)],
    };
    let probes = vec![loaded("/ws/templates/pipelines/login", &["LoginTapTitlePc", "LoginAccept"])];
    let err = def.validate("/ws", &probes).expect_err("unknown task");
    match err {
        RoutineError::StartTaskNotFound { available, start_task, .. } => {
            assert_eq!(start_task, "NoSuchTask");
            assert!(available.contains("LoginTapTitlePc"), "{available}");
        }
        other => panic!("unexpected error: {}", other.message()),
    }
}

#[test]
fn validate_zero_interval_and_max_iters_are_errors() {
    let mk = |interval: u64, max_iters: u64| RoutineDef {
        name: "p".to_string(),
        steps: vec![step("s", "login", "LoginTapTitlePc", max_iters, interval)],
    };
    let probes = vec![loaded("/ws/templates/pipelines/login", &["LoginTapTitlePc"])];
    assert!(matches!(mk(0, 1).validate("/ws", &probes), Err(RoutineError::BadParam { field: "interval", .. })));
    assert!(matches!(mk(1, 0).validate("/ws", &probes), Err(RoutineError::BadParam { field: "max_iters", .. })));
}

#[test]
fn validate_accepts_two_loaded_steps() {
    let def = RoutineDef {
        name: "daily".to_string(),
        steps: vec![
            step("login", "templates/pipelines/login", "LoginTapTitlePc", 150, 2),
            step("nav", "nav_to_field_pc", "TapToStartPc", 60, 2),
        ],
    };
    let probes = vec![
        loaded("/ws/templates/pipelines/login", &["LoginTapTitlePc"]),
        loaded("/ws/templates/pipelines/nav_to_field_pc", &["TapToStartPc"]),
    ];
    assert_eq!(def.validate("/ws", &probes), Ok(()));
}

#[test]
fn validate_empty_pipeline_is_load_failure() {
    let def = RoutineDef { name: "r".to_string(), steps: vec![step("s", "p", "T", 1, 1)] };
    let err = def.validate("/ws", &vec![loaded("/ws/p", &[])]).expect_err("empty pipeline");
    assert!(matches!(err, RoutineError::PipelineLoadFailed { .. }));
}

// ---- routine runner ----

fn two_step_def(on_failure_step1: OnFailure) -> RoutineDef {
    let mut s1 = step("s1", "templates/pipelines/s1", "T", 10, 1);
    s1.on_failure = on_failure_step1;
    RoutineDef { name: "rt".to_string(), steps: vec![s1, step("s2", "templates/pipelines/s2", "T", 10, 1)] }
}

fn outcome(reason: LoopStopReason, iterations: u64, fired: usize) -> anaden::driver::LoopOutcome {
    let commands = vec![InputCommand::Tap { x: 1, y: 1 }; fired];
    build_outcome(iterations, commands, reason, "term", Vec::new(), 0, None)
}

fn run_scripted(
    def: &RoutineDef,
    scripted: Vec<Result<anaden::driver::LoopOutcome, RoutineError>>,
) -> (Vec<String>, anaden::routine_runner::RoutineSummary) {
    let mut run = RoutineRun::new();
    let mut calls = Vec::new();
    let mut script = scripted.into_iter();
    while let Some(i) = run.next_step(def) {
        calls.push(def.steps[i].name.clone());
        let res = script.next().unwrap();
        run.record(def, i, res);
    }
    (calls, run.finish(def))
}

#[test]
fn dry_run_text_lists_all_steps_with_params() {
    let def = two_step_def(OnFailure::Stop);
    let text = format_dry_run(&def, &vec![None, None]);
    assert!(text.contains("dry-run: 2 ステップ"), "{text}");
    assert!(text.contains("[0] s1"), "{text}");
    assert!(text.contains("start=T"), "{text}");
    assert!(text.contains("on_failure=stop"), "{text}");
}

#[test]
fn dry_run_shows_resolved_directory() {
    let def = two_step_def(OnFailure::Skip);
    let text = format_dry_run(&def, &vec![Some("/ws/templates/pipelines/s1".to_string()), None]);
    assert!(text.contains("[0] s1 pipeline=/ws/templates/pipelines/s1 start=T max_iters=10 interval=1s on_failure=skip\n"), "{text}");
    assert!(text.contains("[1] s2 pipeline=templates/pipelines/s2"), "{text}");
}

#[test]
fn interrupted_summary_marks_all_steps_skipped_and_aborted() {
    let def = two_step_def(OnFailure::Stop);
    let s = interrupted_summary(&def);
    assert_eq!(s.routine, def.name);
    assert!(s.results.is_empty());
    assert_eq!(s.total_iterations, 0);
    assert_eq!(s.total_fired, 0);
    assert_eq!(s.completed, 0);
    assert_eq!(s.failed, 0);
    assert_eq!(s.skipped, 2);
    assert!(s.aborted);
    assert!(!s.all_ok());
    assert!(s.format_text().contains("aborted=true"), "{}", s.format_text());
}

#[test]
fn runs_steps_in_definition_order() {
    let def = two_step_def(OnFailure::Stop);
    let (calls, summary) =
        run_scripted(&def, vec![Ok(outcome(LoopStopReason::Stop, 3, 1)), Ok(outcome(LoopStopReason::TerminalTask, 5, 2))]);
    assert_eq!(calls, vec!["s1", "s2"]);
    assert!(summary.all_ok());
}

#[test]
fn aggregates_totals_and_counts() {
    let def = two_step_def(OnFailure::Stop);
    let (_, summary) = run_scripted(
        &def,
        vec![Ok(outcome(LoopStopReason::Stop, 3, 2)), Ok(outcome(LoopStopReason::MaxIterations, 7, 4))],
    );
    assert_eq!(summary.total_iterations, 10);
    assert_eq!(summary.total_fired, 6);
    assert_eq!(summary.completed, 2);
    assert_eq!(summary.failed, 0);
    assert_eq!(summary.skipped, 0);
    assert_eq!(summary.results[0].terminal, "term");
    assert_eq!(summary.results[0].fired_count, 2);
}

#[test]
fn failure_with_stop_policy_skips_remaining_steps() {
    let def = two_step_def(OnFailure::Stop);
    let (calls, summary) = run_scripted(
        &def,
        vec![Ok(outcome(LoopStopReason::CaptureError, 2, 0)), Ok(outcome(LoopStopReason::Stop, 9, 9))],
    );
    assert_eq!(calls, vec!["s1"]);
    assert_eq!(summary.failed, 1);
    assert_eq!(summary.skipped, 1);
    assert!(summary.aborted);
    assert!(!summary.all_ok());
    assert_eq!(summary.results[1].status, StepStatus::Skipped);
}

#[test]
fn failure_with_skip_policy_continues_to_next_step() {
    let def = two_step_def(OnFailure::Skip);
    let (calls, summary) = run_scripted(
        &def,
        vec![Ok(outcome(LoopStopReason::ExecuteError, 2, 0)), Ok(outcome(LoopStopReason::Stop, 4, 1))],
    );
    assert_eq!(calls, vec!["s1", "s2"]);
    assert_eq!(summary.failed, 1);
    assert_eq!(summary.completed, 1);
    assert_eq!(summary.skipped, 0);
    assert!(!summary.aborted);
    assert!(!summary.all_ok());
}

#[test]
fn interrupted_aborts_regardless_of_policy() {
    let def = two_step_def(OnFailure::Skip);
    let (calls, summary) = run_scripted(
        &def,
        vec![Ok(outcome(LoopStopReason::Interrupted, 1, 0)), Ok(outcome(LoopStopReason::Stop, 9, 9))],
    );
    assert_eq!(calls, vec!["s1"]);
    assert!(summary.aborted);
    assert_eq!(summary.results[0].status, StepStatus::Interrupted);
    assert_eq!(summary.results[1].status, StepStatus::Skipped);
}

#[test]
fn invoker_error_is_failure_and_stops_when_policy_stop() {
    let def = two_step_def(OnFailure::Stop);
    let (calls, summary) = run_scripted(
        &def,
        vec![Err(RoutineError::ReadFailed { path: "x.toml".into(), reason: "boom".into() })],
    );
    assert_eq!(calls, vec!["s1"]);
    assert_eq!(summary.failed, 1);
    assert!(summary.aborted);
    assert!(matches!(summary.results[0].status, StepStatus::InvokerError(_)));
}

#[test]
fn summary_text_contains_step_and_total_lines() {
    let def = two_step_def(OnFailure::Skip);
    let (_, summary) = run_scripted(
        &def,
        vec![Ok(outcome(LoopStopReason::Stop, 3, 1)), Ok(outcome(LoopStopReason::CaptureError, 2, 0))],
    );
    let text = summary.format_text();
    assert!(text.contains("routine 'rt'"), "{text}");
    assert!(text.contains("[0] s1"), "{text}");
    assert!(text.contains("[1] s2"), "{text}");
    assert!(text.contains("failed=1"), "{text}");
}

#[test]
fn classification_and_labels() {
    assert_eq!(classify_reason(&LoopStopReason::GoalTimeout), StepStatus::Failed(LoopStopReason::GoalTimeout));
    assert_eq!(
        classify_reason(&LoopStopReason::MaxIterations),
        StepStatus::Completed(LoopStopReason::MaxIterations)
    );
    assert_eq!(classify_reason(&LoopStopReason::Interrupted), StepStatus::Interrupted);
    assert!(!reason_label(&LoopStopReason::Stop).is_empty());
    assert_ne!(step_status_label(&StepStatus::Skipped), step_status_label(&StepStatus::Interrupted));
}

#[test]
fn giving_up_is_final_for_longer_streaks() {
    let policy = RecoveryPolicy::new(3);
    assert!(matches!(policy.recover_actions(4), RecoveryAction::GiveUp));
    for streak in 4..20 {
        assert!(matches!(policy.recover_actions(streak), RecoveryAction::GiveUp));
    }
    let lenient = RecoveryPolicy::new(100);
    assert!(matches!(lenient.recover_actions(5), RecoveryAction::GiveUp));
    assert_eq!(lenient.max_retries(), 100);
}

#[test]
fn goal_descriptor_covers_all_variants() {
    let lc = Goal { name: "n".into(), stop: StopCondition::LoopCount { target: 7 } };
    assert_eq!(goal_descriptor(&lc), "loop_count=7");
    let tm = Goal {
        name: "n".into(),
        stop: StopCondition::TemplateMatch { task: "X".into(), confidence: "0.85".into() },
    };
    assert!(goal_descriptor(&tm).starts_with("template_match conf>=0.85"));
    assert_eq!(goal_descriptor(&tm), "template_match conf>=0.85 (task=X)");
    let to = Goal { name: "n".into(), stop: StopCondition::Timeout { secs: 30 } };
    assert_eq!(goal_descriptor(&to), "timeout=30");
}

/// The width-based uniform scale from the 1280-wide base to `device_width`.
fn from_base(device_width: u32) -> impl Fn(u32) -> u32 {
    move |v| (u64::from(v) * u64::from(device_width) / 1280) as u32
}

#[test]
fn rescale_tap_pixel7a_2400_both_axes_uniform() {
    let out = rescale_command(InputCommand::Tap { x: 640, y: 360 }, from_base(2400));
    assert_eq!(out, InputCommand::Tap { x: 1200, y: 675 });
}

#[test]
fn rescale_swipe_pixel7a_2400_both_axes() {
    let cmd = InputCommand::Swipe { from: (640, 360), to: (0, 0) };
    let out = rescale_command(cmd, from_base(2400));
    assert_eq!(out, InputCommand::Swipe { from: (1200, 675), to: (0, 0) });
}

#[test]
fn rescale_identity_when_device_width_equals_base() {
    let out = rescale_command(InputCommand::Tap { x: 640, y: 360 }, from_base(1280));
    assert_eq!(out, InputCommand::Tap { x: 640, y: 360 });
}

#[test]
fn rescale_downscale_small_device_width() {
    let out = rescale_command(InputCommand::Tap { x: 640, y: 360 }, from_base(640));
    assert_eq!(out, InputCommand::Tap { x: 320, y: 180 });
}

use anaden::diagnostics::{diag_file_name, diag_report_dir, diag_report_label, ReportDir};

#[test]
fn diag_report_dir_none_when_env_unset() {
    assert!(diag_report_dir(None, None).is_none());
}

#[test]
fn diag_report_dir_cwd_when_diag_report_enabled() {
    assert!(diag_report_dir(None, Some("1".to_string())).is_some());
    assert_eq!(diag_report_dir(None, Some("1".to_string())), Some(ReportDir::CurrentDir));
    assert_eq!(diag_report_dir(None, Some("true".to_string())), Some(ReportDir::CurrentDir));
}

#[test]
fn diag_report_dir_prefers_snapshot_dir() {
    assert_eq!(
        diag_report_dir(Some("/tmp/snap".to_string()), Some("1".to_string())),
        Some(ReportDir::At("/tmp/snap".to_string()))
    );
}

#[test]
fn diag_report_setting_other_than_flag_is_a_directory() {
    assert_eq!(
        diag_report_dir(None, Some("reports".to_string())),
        Some(ReportDir::At("reports".to_string()))
    );
    assert_eq!(
        diag_report_dir(None, Some("TRUE".to_string())),
        Some(ReportDir::At("TRUE".to_string()))
    );
}

#[test]
fn diag_report_file_names() {
    assert_eq!(diag_report_label("Title", 1), "Title_1");
    assert_eq!(diag_file_name("Title", 1, "md"), "diag_Title_1.md");
    assert_eq!(diag_file_name("Title", 7, "png"), "diag_Title_7.png");
}

// ---- the pipeline loop, cycle by cycle ----

/// Runs a loop the way the host does, with `cycle` giving, for each cycle
/// number, the task before it, its outcome and the task after it, and
/// `hook` answering recovery requests.
fn drive(
    run: &mut LoopRun,
    mut cycle: impl FnMut(u64) -> (String, StepOutcome, String),
    mut hook: impl FnMut(u32) -> bool,
) -> LoopOutcome {
    let mut t = 0u64;
    loop {
        if let Some(out) = run.begin_iteration(t) {
            return out;
        }
        let (before, step, after) = cycle(run.iterations());
        match run.observe_step(&before, step, GoalVerdict::NotYet, &after, t) {
            LoopDecision::Continue => {}
            LoopDecision::Recover { streak } => {
                let ok = hook(streak);
                if let Some(out) = run.observe_recovery(ok, t) {
                    return out;
                }
            }
            LoopDecision::Finish(out) => return out,
        }
        t += 1;
    }
}

const DEVICE_TAP: InputCommand = InputCommand::Tap { x: 1200, y: 675 };

fn fired_to(next: Option<&str>) -> StepOutcome {
    StepOutcome::Fired { next_current: next.map(str::to_string), fired: Some(DEVICE_TAP) }
}

/// Title → LoadGame → Terminal, each matching and firing once.
fn three_task_chain(i: u64) -> (String, StepOutcome, String) {
    match i {
        1 => ("Title".into(), fired_to(Some("LoadGame")), "LoadGame".into()),
        2 => ("LoadGame".into(), fired_to(Some("Terminal")), "Terminal".into()),
        _ => ("Terminal".into(), fired_to(None), "Terminal".into()),
    }
}

fn no_match(_: u64) -> (String, StepOutcome, String) {
    ("Title".into(), StepOutcome::NoMatch, "Title".into())
}

fn no_hook(_: u32) -> bool {
    panic!("no recovery hook was given")
}

#[test]
fn run_loop_reaches_terminal_task() {
    let mut run = LoopRun::new(10, 0, false, None);
    let outcome = drive(&mut run, three_task_chain, no_hook);
    assert_eq!(outcome.reason, LoopStopReason::TerminalTask);
    assert_eq!(outcome.fired_commands.len(), 3);
    for c in &outcome.fired_commands {
        assert_eq!(*c, InputCommand::Tap { x: 1200, y: 675 });
    }
    assert_eq!(outcome.terminal, "Terminal");
}

#[test]
fn run_loop_stop_action() {
    let mut run = LoopRun::new(10, 0, false, None);
    let outcome = drive(
        &mut run,
        |_| ("Title".into(), StepOutcome::NoFire { next_current: None }, "Title".into()),
        no_hook,
    );
    assert_eq!(outcome.reason, LoopStopReason::Stop);
    assert!(outcome.fired_commands.is_empty());
}

#[test]
fn run_loop_no_match_hits_max_iterations() {
    let mut run = LoopRun::new(5, 0, false, None);
    let outcome = drive(&mut run, no_match, no_hook);
    assert_eq!(outcome.reason, LoopStopReason::MaxIterations);
    assert_eq!(outcome.iterations, 5);
    assert!(outcome.fired_commands.is_empty());
}

#[test]
fn run_loop_capture_error_stops_immediately() {
    let mut run = LoopRun::new(10, 0, false, None);
    let outcome = drive(
        &mut run,
        |_| ("Title".into(), anaden::driver::capture_error("device gone"), "Title".into()),
        no_hook,
    );
    assert_eq!(outcome.reason, LoopStopReason::CaptureError);
    assert!(outcome.fired_commands.is_empty());
}

#[test]
fn recovery_hook_fires_after_nomatch_threshold() {
    let mut run = LoopRun::new(10, 3, true, None);
    let mut calls = 0u32;
    let outcome = drive(&mut run, no_match, |_| {
        calls += 1;
        true
    });
    assert_eq!(outcome.reason, LoopStopReason::MaxIterations);
    assert!(outcome.fired_commands.is_empty());
    assert!(calls >= 1, "recovery hook must fire at least once");
    assert_eq!(calls, 3);
}

#[test]
fn recovery_disabled_when_threshold_zero() {
    let mut run = LoopRun::new(5, 0, true, None);
    let mut calls = 0u32;
    let outcome = drive(&mut run, no_match, |_| {
        calls += 1;
        true
    });
    assert_eq!(outcome.reason, LoopStopReason::MaxIterations);
    assert_eq!(calls, 0, "hook must not fire when threshold=0");
}

#[test]
fn recovery_hook_error_stops_loop() {
    let mut run = LoopRun::new(100, 2, true, None);
    let outcome = drive(&mut run, no_match, |_| false);
    assert_eq!(outcome.reason, LoopStopReason::ExecuteError);
    assert_eq!(outcome.terminal, "recovery_failed");
}

#[test]
fn verify_loop_treats_fired_unverified_as_nomatch_streak() {
    let mut run = LoopRun::new(20, 2, true, None);
    let mut calls = 0u32;
    let outcome = drive(
        &mut run,
        |_| {
            (
                "Title".into(),
                StepOutcome::FiredUnverified { next_current: Some("LoadGame".into()), fired: Some(DEVICE_TAP) },
                "Title".into(),
            )
        },
        |_| {
            calls += 1;
            true
        },
    );
    assert_eq!(outcome.reason, LoopStopReason::MaxIterations);
    assert!(calls >= 1, "recovery hook must fire on FiredUnverified streak");
    assert!(!outcome.fired_commands.is_empty(), "fired commands recorded even on verify failure");
}

#[test]
fn nomatch_streak_resets_on_fired() {
    let mut run = LoopRun::new(12, 3, true, None);
    let mut calls = 0u32;
    let outcome = drive(
        &mut run,
        |i| match i {
            1 | 2 => ("Title".into(), StepOutcome::NoMatch, "Title".into()),
            3 => ("Title".into(), fired_to(Some("LoadGame")), "LoadGame".into()),
            _ => ("LoadGame".into(), StepOutcome::NoMatch, "LoadGame".into()),
        },
        |_| {
            calls += 1;
            true
        },
    );
    assert_eq!(outcome.reason, LoopStopReason::MaxIterations);
    assert!(!outcome.fired_commands.is_empty(), "expected at least one fire from matched frame");
    // NoMatch at 1, 2, then 4..=12: the streak reaches 3 at cycles 6, 9 and 12.
    assert_eq!(calls, 3);
}

#[test]
fn run_loop_populates_progress_report_basic_fields() {
    let mut run = LoopRun::new(10, 0, false, None);
    let outcome = drive(&mut run, three_task_chain, no_hook);
    assert_eq!(outcome.progress_report.iterations, 3);
    assert_eq!(outcome.progress_report.fired_count, 3);
    assert_eq!(outcome.progress_report.terminal_task.as_deref(), Some("Terminal"));
    assert_eq!(outcome.progress_report.reached_goal, None);
}

#[test]
fn run_loop_tracks_per_task_match_counts() {
    let mut run = LoopRun::new(10, 0, false, None);
    let outcome = drive(&mut run, three_task_chain, no_hook);
    let matches = &outcome.progress_report.per_task_matches;
    assert_eq!(matches.len(), 3);
    let by_name: std::collections::HashMap<&str, u64> =
        matches.iter().map(|m| (m.task.as_str(), m.matches)).collect();
    assert_eq!(by_name.get("Title"), Some(&1));
    assert_eq!(by_name.get("LoadGame"), Some(&1));
    assert_eq!(by_name.get("Terminal"), Some(&1));
}

#[test]
fn backcompat_goal_none_no_match_hits_max_iterations_byte_identical() {
    let mut run = LoopRun::new(5, 0, false, None);
    let outcome = drive(&mut run, no_match, no_hook);
    assert_eq!(outcome.reason, LoopStopReason::MaxIterations);
    assert_eq!(outcome.iterations, 5);
    assert!(outcome.fired_commands.is_empty(), "no fires on pure NoMatch");
}

#[test]
fn backcompat_goal_none_recovery_hook_fires_under_max_iterations() {
    let mut run = LoopRun::new(10, 3, true, None);
    let mut calls = 0u32;
    let outcome = drive(&mut run, no_match, |_| {
        calls += 1;
        true
    });
    assert_eq!(outcome.reason, LoopStopReason::MaxIterations);
    assert!(calls >= 1, "recovery hook must fire at least once under goal=None");
    assert!(outcome.fired_commands.is_empty());
}

#[test]
fn backcompat_goal_none_recovery_error_stops_immediately() {
    let mut run = LoopRun::new(100, 2, true, None);
    let outcome = drive(&mut run, no_match, |_| false);
    assert_eq!(outcome.reason, LoopStopReason::ExecuteError);
    assert_eq!(outcome.terminal, "recovery_failed");
    assert!(outcome.iterations < 100, "must short-circuit before max_iterations");
}

#[test]
fn backcompat_goal_none_indefinite_continuation_scales_with_max_iters() {
    let out_small = drive(&mut LoopRun::new(5, 0, false, None), no_match, no_hook);
    assert_eq!(out_small.reason, LoopStopReason::MaxIterations);
    assert_eq!(out_small.iterations, 5);
    let out_large = drive(&mut LoopRun::new(50, 0, false, None), no_match, no_hook);
    assert_eq!(out_large.reason, LoopStopReason::MaxIterations);
    assert_eq!(out_large.iterations, 50);
    assert_eq!(out_large.iterations, out_small.iterations * 10);
    assert_ne!(out_large.reason, LoopStopReason::GoalReached);
    assert_ne!(out_large.reason, LoopStopReason::GoalTimeout);
}

#[test]
fn backcompat_goal_none_progress_report_reached_goal_is_none() {
    let outcome = drive(&mut LoopRun::new(5, 0, false, None), no_match, no_hook);
    assert_eq!(outcome.reason, LoopStopReason::MaxIterations);
    assert!(outcome.progress_report.reached_goal.is_none());
}

#[test]
fn backcompat_goal_none_single_iteration_still_max_iterations() {
    let outcome = drive(&mut LoopRun::new(1, 0, false, None), no_match, no_hook);
    assert_eq!(outcome.reason, LoopStopReason::MaxIterations);
    assert_eq!(outcome.iterations, 1);
}

#[test]
fn step_resolution_follows_the_pipeline_argument_convention() {
    let nested = ["/ws/templates/pipelines/a/b".to_string()];
    let is_nested = |p: &str| nested.iter().any(|d| d == p);
    assert_eq!(resolve_step_pipeline_dir("a/b", "/ws", &is_nested), Some(nested[0].clone()));
    let bare = ["/ws/login".to_string()];
    let is_bare = |p: &str| bare.iter().any(|d| d == p);
    assert_eq!(resolve_step_pipeline_dir("/gone/login", "/ws", &is_bare), Some(bare[0].clone()));
    for input in ["a/b", "/gone/login", "login", "templates/pipelines/x", "ghost"] {
        for dirs in [&nested[..], &bare[..], &[][..]] {
            let is_dir = |p: &str| dirs.iter().any(|d| d == p);
            assert_eq!(
                resolve_step_pipeline_dir(input, "/ws", &is_dir),
                resolve_pipeline_dir(input, "/ws", &is_dir)
            );
        }
    }
}

#[test]
fn skipped_steps_carry_their_directory_and_no_counts() {
    let def = two_step_def(OnFailure::Stop);
    let (_, summary) = run_scripted(&def, vec![Ok(outcome(LoopStopReason::CaptureError, 2, 0))]);
    let skipped = &summary.results[1];
    assert_eq!(skipped.status, StepStatus::Skipped);
    assert_eq!(skipped.step, "s2");
    assert_eq!(skipped.pipeline_dir, "templates/pipelines/s2");
    assert_eq!(skipped.iterations, 0);
    assert_eq!(skipped.fired_count, 0);
    assert!(skipped.terminal.is_empty());
}

#[test]
fn loop_with_recovery_off_is_the_plain_loop() {
    let script = |i: u64| match i {
        1 | 2 | 3 => ("Title".to_string(), StepOutcome::NoMatch, "Title".to_string()),
        4 => ("Title".to_string(), fired_to(Some("LoadGame")), "LoadGame".to_string()),
        _ => ("LoadGame".to_string(), StepOutcome::NoMatch, "LoadGame".to_string()),
    };
    let plain = drive(&mut LoopRun::new(8, 0, false, None), script, no_hook);
    let mut calls = 0u32;
    let zero_threshold = drive(&mut LoopRun::new(8, 0, true, None), script, |_| {
        calls += 1;
        true
    });
    let no_hook_given = drive(&mut LoopRun::new(8, 2, false, None), script, no_hook);
    assert_eq!(calls, 0);
    for other in [&zero_threshold, &no_hook_given] {
        assert_eq!(other.reason, plain.reason);
        assert_eq!(other.iterations, plain.iterations);
        assert_eq!(other.terminal, plain.terminal);
        assert_eq!(other.fired_commands, plain.fired_commands);
        assert_eq!(other.progress_report, plain.progress_report);
    }
}
