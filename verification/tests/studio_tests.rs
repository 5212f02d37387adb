use anaden::authoring::{clamp_region_to_frame, needle_roi_warning, region_contains, AuthoringError, AuthoringSession, GestureOutcome};
use anaden::authoring_panel::{
    gesture_status, AuthoringInputInjector, AuthoringPanel, PanelGesture, RecordingInjector, RoiEdit,
    UnavailableAuthoringInjector,
};
use anaden::childproc::{start_check, stop_plan, ChildProcessError, SpawnSpec, StopPlan};
use anaden::cli::{launch_kind, parse_args_from, parse_args_with_unknown, LaunchKind, Target, HELP_TEXT};
use anaden::connection::{
    android_probe_status, blank_serial_status, capture_probe_status, check_windows_process, AdbProbe,
    ConnectionState, ConnectionStatus,
};
use anaden::history::{
    frame_lines, history_path, record_lines, RunHistory, RunOutcome, RunRecord, DEFAULT_MAX_RECORDS, LOG_TAIL_MAX_LINES,
};
use anaden::history_ui::{
    log_preview, log_preview_heading, record_label, settings_status_line, ButtonState, HistoryAction, HistoryPanel, SettingsStatus,
};
use anaden::studio_task::{
    pipeline_task_spec, Algorithm, EngineKind, PipelineActionKind, ScreenRegion,
};

fn no_quality(_: [u32; 4]) -> Vec<String> {
    Vec::new()
}

// ---- history ----

fn sample_record(strategy: &str, started: u64) -> RunRecord {
    RunRecord::new(started, strategy, RunOutcome::Success, Some(0), vec!["line1".to_string(), "line2".to_string()])
}

#[test]
fn log_tail_truncated_to_limit() {
    let lines: Vec<String> = (0..100).map(|i| format!("l{i}")).collect();
    let r = RunRecord::new(1, "s", RunOutcome::Cancelled, None, lines.clone());
    assert_eq!(r.log_tail.len(), LOG_TAIL_MAX_LINES);
    assert_eq!(r.log_tail.first().unwrap(), "l80");
    assert_eq!(r.log_tail.last().unwrap(), "l99");
}

#[test]
fn short_log_tail_is_kept_whole() {
    let r = sample_record("s", 1);
    assert_eq!(r.log_tail, vec!["line1".to_string(), "line2".to_string()]);
}

#[test]
fn max_records_limit_drops_oldest() {
    let mut h = RunHistory::open("/tmp/h.jsonl", 3, Vec::new());
    for i in 0..5u64 {
        h.append(sample_record("s", i));
    }
    assert_eq!(h.records().len(), 3);
    assert_eq!(h.records().iter().map(|r| r.started_at_unix).collect::<Vec<_>>(), vec![4, 3, 2]);
}

#[test]
fn open_keeps_only_newest_loaded_records() {
    let loaded = vec![sample_record("a", 3), sample_record("b", 2), sample_record("c", 1)];
    let h = RunHistory::open("/tmp/h.jsonl", 2, loaded);
    assert_eq!(h.records().iter().map(|r| r.strategy.as_str()).collect::<Vec<_>>(), vec!["a", "b"]);
    assert_eq!(h.path(), "/tmp/h.jsonl");
}

#[test]
fn open_missing_file_yields_empty_history() {
    let h = RunHistory::open("/tmp/nonexistent.jsonl", DEFAULT_MAX_RECORDS, Vec::new());
    assert!(h.records().is_empty());
}

#[test]
fn history_path_respects_env_override() {
    let p = history_path(Some("/tmp/custom-history.jsonl"), Some("/appdata"), None, Some("/home/u"));
    assert_eq!(p, "/tmp/custom-history.jsonl");
}

#[test]
fn history_path_falls_back_in_order() {
    assert_eq!(history_path(None, Some("/appdata"), Some("/xdg"), Some("/home/u")), "/appdata/anaden-studio/history.jsonl");
    assert_eq!(history_path(Some("  "), Some(" "), Some("/xdg"), Some("/home/u")), "/xdg/anaden-studio/history.jsonl");
    assert_eq!(history_path(None, None, None, Some("/home/u")), "/home/u/.config/anaden-studio/history.jsonl");
    assert_eq!(history_path(None, None, None, None), "./anaden-studio/history.jsonl");
}

#[test]
fn open_default_uses_resolved_path_and_default_limit() {
    let h = RunHistory::open_default(None, None, Some("/xdg"), None, Vec::new());
    assert_eq!(h.path(), "/xdg/anaden-studio/history.jsonl");
    assert_eq!(RunHistory::history_path(None, None, Some("/xdg"), None), "/xdg/anaden-studio/history.jsonl");
}

// ---- history pane ----

fn record(started: u64, strategy: &str, outcome: RunOutcome, n_lines: usize) -> RunRecord {
    RunRecord::new(started, strategy, outcome, Some(0), (0..n_lines).map(|i| format!("line-{i}")).collect())
}

#[test]
fn new_panel_is_empty_and_no_selection() {
    let p = HistoryPanel::new();
    assert!(p.entries().is_empty());
    assert!(p.selected().is_none());
    assert!(p.buttons().rerun_enabled());
    assert_eq!(p.settings_status(), &SettingsStatus::NoResult);
}

#[test]
fn refresh_from_populates_entries_and_selects_first() {
    let mut p = HistoryPanel::new();
    let recs = vec![record(2, "fishing", RunOutcome::Success, 1), record(1, "fishing", RunOutcome::Failed, 1)];
    p.refresh_from(&recs);
    assert_eq!(p.entries().len(), 2);
    assert_eq!(p.entries()[0].started_at_unix, 2);
    assert_eq!(p.selected().map(|r| r.started_at_unix), Some(2));
}

#[test]
fn refresh_from_clamps_stale_selection() {
    let mut p = HistoryPanel::new();
    let recs = vec![record(1, "s", RunOutcome::Success, 1)];
    p.refresh_from(&recs);
    p.select(0);
    p.refresh_from(&[]);
    assert!(p.selected().is_none());
}

#[test]
fn refresh_keeps_selection_still_in_range() {
    let mut p = HistoryPanel::new();
    p.refresh_from(&[record(3, "a", RunOutcome::Success, 1), record(2, "b", RunOutcome::Success, 1)]);
    p.select(1);
    p.refresh_from(&[record(4, "c", RunOutcome::Success, 1), record(3, "a", RunOutcome::Success, 1)]);
    assert_eq!(p.selected().map(|r| r.strategy.as_str()), Some("a"));
}

#[test]
fn select_updates_selected_entry() {
    let mut p = HistoryPanel::new();
    p.refresh_from(&[record(2, "a", RunOutcome::Success, 1), record(1, "b", RunOutcome::Success, 1)]);
    p.select(1);
    assert_eq!(p.selected().map(|r| r.strategy.as_str()), Some("b"));
}

#[test]
fn select_out_of_range_is_ignored() {
    let mut p = HistoryPanel::new();
    p.refresh_from(&[record(1, "a", RunOutcome::Success, 1)]);
    p.select(0);
    p.select(99);
    assert_eq!(p.selected().map(|r| r.strategy.as_str()), Some("a"));
}

#[test]
fn buttons_when_stopped_rerun_only() {
    let b = ButtonState { running: false };
    assert!(b.rerun_enabled());
    assert!(!b.stop_enabled());
}

#[test]
fn buttons_when_running_stop_only() {
    let b = ButtonState { running: true };
    assert!(!b.rerun_enabled());
    assert!(b.stop_enabled());
}

#[test]
fn set_running_updates_button_state() {
    let mut p = HistoryPanel::new();
    assert!(p.buttons().rerun_enabled());
    p.set_running(true);
    assert!(p.buttons().stop_enabled());
    assert!(!p.buttons().rerun_enabled());
}

#[test]
fn take_action_returns_none_initially_and_after_consume() {
    let mut p = HistoryPanel::new();
    assert_eq!(p.take_action(), None);
    p.request(HistoryAction::Rerun);
    assert_eq!(p.take_action(), Some(HistoryAction::Rerun));
    assert_eq!(p.take_action(), None);
}

#[test]
fn request_overwrites_previous_action() {
    let mut p = HistoryPanel::new();
    p.request(HistoryAction::Stop);
    p.request(HistoryAction::Rerun);
    assert_eq!(p.take_action(), Some(HistoryAction::Rerun));
}

#[test]
fn save_settings_records_ok_path() {
    let mut p = HistoryPanel::new();
    p.save_settings("/tmp/settings.toml", Ok(()));
    assert_eq!(p.settings_status(), &SettingsStatus::Succeeded("/tmp/settings.toml".to_string()));
}

#[test]
fn save_settings_failure_is_reported() {
    let mut p = HistoryPanel::new();
    p.save_settings("/tmp/settings.toml", Err("permission denied".to_string()));
    assert_eq!(p.settings_status(), &SettingsStatus::Failed("設定保存失敗: permission denied".to_string()));
}

#[test]
fn load_settings_missing_file_is_not_an_error_for_gui() {
    let mut p = HistoryPanel::new();
    assert!(p.load_settings::<u8>("/tmp/nope.toml", None).is_none());
    assert!(matches!(p.settings_status(), SettingsStatus::Succeeded(_)));
    assert_eq!(p.load_settings("/tmp/s.toml", Some(7u8)), Some(7));
}

#[test]
fn record_label_contains_strategy_and_outcome_ja() {
    let r = record(42, "fishing", RunOutcome::Cancelled, 0);
    let label = record_label(&r);
    assert!(label.contains("fishing"));
    assert!(label.contains("中止"));
    assert!(label.contains("42"));
    assert_eq!(label, "@42 fishing [中止]");
    assert_eq!(record_label(&record(7, "x", RunOutcome::Failed, 0)), "@7 x [異常終了]");
}

// ---- connection ----

#[test]
fn connection_state_badges_are_ascii_no_tofu() {
    for (state, expected) in [
        (ConnectionState::Unknown, "[?] 接続未確認"),
        (ConnectionState::Checking, "[..] 接続確認中"),
        (ConnectionState::Connected, "[OK] 接続済み"),
        (ConnectionState::Disconnected, "[NG] 未接続"),
    ] {
        assert_eq!(state.badge(), expected);
        assert!(state.badge().chars().all(|c| c < '\u{1F300}'), "badge must not contain emoji: {}", state.badge());
    }
}

#[test]
fn connection_state_is_connected_only_for_connected() {
    assert!(ConnectionState::Connected.is_connected());
    assert!(!ConnectionState::Unknown.is_connected());
    assert!(!ConnectionState::Checking.is_connected());
    assert!(!ConnectionState::Disconnected.is_connected());
}

#[test]
fn connection_status_default_is_unknown_with_reason() {
    let s = ConnectionStatus::default();
    assert_eq!(s.state, ConnectionState::Unknown);
    assert_eq!(s.reason_line(), "接続チェック未実行");
}

#[test]
fn connection_status_reason_line_prefixes_detail_when_disconnected() {
    let s = ConnectionStatus { state: ConnectionState::Disconnected, detail: "adb が見つからない".to_string() };
    assert_eq!(s.reason_line(), "理由: adb が見つからない");
    let ok = ConnectionStatus { state: ConnectionState::Connected, detail: "adb emulator-5554: device".to_string() };
    assert_eq!(ok.reason_line(), "adb emulator-5554: device");
}

#[test]
fn check_android_empty_serial_is_disconnected() {
    let s = blank_serial_status("").unwrap();
    assert_eq!(s.state, ConnectionState::Disconnected);
    assert!(s.detail.contains("serial"));
    assert!(blank_serial_status("emulator-5554").is_none());
}

#[test]
fn check_windows_empty_exe_is_disconnected() {
    let s = check_windows_process("  ");
    assert_eq!(s.state, ConnectionState::Disconnected);
    assert!(s.detail.contains("exe"));
}

#[test]
fn android_probe_decides_on_adb_answer() {
    let ok = android_probe_status(
        "emu",
        &AdbProbe::Ran { success: true, stdout: "device\n".to_string(), stderr: String::new() },
    );
    assert_eq!(ok.state, ConnectionState::Connected);
    assert_eq!(ok.detail, "adb emu: device");
    let offline = android_probe_status(
        "emu",
        &AdbProbe::Ran { success: true, stdout: "offline\n".to_string(), stderr: String::new() },
    );
    assert_eq!(offline.state, ConnectionState::Disconnected);
    assert_eq!(offline.detail, "adb emu: 状態が device でない (offline)");
    let failed = android_probe_status(
        "emu",
        &AdbProbe::Ran { success: false, stdout: String::new(), stderr: " no device \n".to_string() },
    );
    assert_eq!(failed.detail, "adb emu: get-state 失敗 (no device)");
    let missing = android_probe_status("emu", &AdbProbe::NotStarted("not found".to_string()));
    assert_eq!(missing.detail, "adb 起動失敗 (adb への PATH を確認): not found");
}

#[test]
fn capture_probe_reports_frame_size() {
    let ok = capture_probe_status("Game.exe", Ok((1280, 720)));
    assert_eq!(ok.state, ConnectionState::Connected);
    assert_eq!(ok.detail, "Game.exe: プロセス検出済み (1280x720)");
    let err = capture_probe_status("Game.exe", Err("no window".to_string()));
    assert_eq!(err.state, ConnectionState::Disconnected);
    assert_eq!(err.detail, "Game.exe: プロセス未検出 or キャプチャ失敗 (no window)");
}

// ---- pipeline tasks ----

#[test]
fn engine_kind_default_is_ccoeff() {
    assert_eq!(EngineKind::default(), EngineKind::Ccoeff);
    assert_eq!(EngineKind::Sse.method_str(), "sse");
    assert_eq!(EngineKind::Ccoeff.method_str(), "ccoeff");
}

#[test]
fn pipeline_action_kind_labels_roundtrip() {
    for k in [PipelineActionKind::ClickSelf, PipelineActionKind::DoNothing, PipelineActionKind::Stop] {
        assert_eq!(PipelineActionKind::from_label(k.label()), Some(k));
    }
    assert_eq!(PipelineActionKind::from_label("bogus"), None);
}

#[test]
fn pipeline_task_spec_builds_from_method_str() {
    let roi = ScreenRegion::new(10, 20, 30, 40);
    let spec = pipeline_task_spec("my_task", "field", "ccoeff", roi, PipelineActionKind::ClickSelf).unwrap();
    assert_eq!(spec.name, "my_task");
    assert_eq!(spec.state, "field");
    assert_eq!(spec.algorithm, Algorithm::Ccoeff);
    assert_eq!(spec.template, "my_task.png");
    assert_eq!(spec.roi, [10, 20, 30, 40]);
    assert_eq!(spec.action, PipelineActionKind::ClickSelf);
    assert!(spec.next.is_empty());
    let sse = pipeline_task_spec("t2", "title", "sse", roi, PipelineActionKind::DoNothing).unwrap();
    assert_eq!(sse.algorithm, Algorithm::Sse);
    assert_eq!(sse.action, PipelineActionKind::DoNothing);
}

#[test]
fn pipeline_task_spec_rejects_unknown_method() {
    assert!(pipeline_task_spec("x", "field", "orb", ScreenRegion::new(0, 0, 1, 1), PipelineActionKind::ClickSelf)
        .is_none());
}

// ---- cli ----

fn args(v: &[&str]) -> Vec<String> {
    v.iter().map(|s| s.to_string()).collect()
}

#[test]
fn no_flags_launches_unified() {
    let a = parse_args_from(Vec::<String>::new());
    assert_eq!(launch_kind(&a), LaunchKind::Unified);
}

#[test]
fn pipeline_flag_is_now_unknown_arg() {
    let a = parse_args_from(args(&["--pipeline"]));
    assert_eq!(launch_kind(&a), LaunchKind::Unified);
}

#[test]
fn target_flag_is_now_unknown_arg() {
    let a = parse_args_from(args(&["--target", "windows"]));
    assert_eq!(a.target, Target::Windows);
    assert_eq!(launch_kind(&a), LaunchKind::Unified);
}

#[test]
fn exe_propagates_to_args() {
    let a = parse_args_from(args(&["--exe", "AnotherEden.exe"]));
    assert_eq!(a.exe.as_deref(), Some("AnotherEden.exe"));
    assert_eq!(a.target, Target::Windows);
}

#[test]
fn help_flag_requests_help() {
    let a = parse_args_from(args(&["--help"]));
    assert_eq!(launch_kind(&a), LaunchKind::Help);
    let a_h = parse_args_from(args(&["-h"]));
    assert_eq!(launch_kind(&a_h), LaunchKind::Help);
}

#[test]
fn help_text_no_longer_mentions_pipeline_nor_target() {
    assert!(!HELP_TEXT.contains("--pipeline"));
    assert!(!HELP_TEXT.contains("--target"));
    assert!(!HELP_TEXT.contains("deprecated"));
}

#[test]
fn unknown_arg_is_ignored_and_app_launches() {
    let a = parse_args_from(args(&["--nonexistent"]));
    assert_eq!(launch_kind(&a), LaunchKind::Unified);
}

#[test]
fn unknown_args_are_reported_in_order_and_trailing_exe_is_dropped() {
    let (a, unknown) = parse_args_with_unknown(args(&["--x", "--exe", "a.exe", "--y", "--exe"]));
    assert_eq!(unknown, vec!["--x".to_string(), "--y".to_string()]);
    assert_eq!(a.exe.as_deref(), Some("a.exe"));
    assert!(!a.help);
}

// ---- child process ----

#[test]
fn start_is_refused_while_running() {
    assert_eq!(start_check(true), Err(ChildProcessError::AlreadyRunning));
    assert_eq!(start_check(false), Ok(()));
}

#[test]
fn stop_plans_follow_process_state() {
    assert_eq!(stop_plan(false, false), Err(ChildProcessError::NotRunning));
    assert_eq!(stop_plan(true, false), Ok(StopPlan::Reap));
    assert_eq!(stop_plan(true, true), Ok(StopPlan::KillAndReap));
}

#[test]
fn child_error_messages() {
    assert_eq!(ChildProcessError::AlreadyRunning.message(), "子プロセスは既に実行中です");
    assert_eq!(ChildProcessError::Spawn("boom".to_string()).message(), "起動に失敗: boom");
    let spec = SpawnSpec::new("ping", vec!["-c".to_string()]);
    assert_eq!(spec.program, "ping");
    assert_eq!(spec.args, vec!["-c".to_string()]);
}

// ---- authoring session ----

#[test]
fn clamp_and_contains() {
    assert_eq!(clamp_region_to_frame([10, 10, 50, 50], 40, 30), Some([10, 10, 30, 20]));
    assert_eq!(clamp_region_to_frame([40, 0, 5, 5], 40, 30), None);
    assert_eq!(clamp_region_to_frame([0, 0, 0, 5], 40, 30), None);
    assert!(region_contains([10, 10, 5, 5], (10, 14)));
    assert!(!region_contains([10, 10, 5, 5], (15, 10)));
}

#[test]
fn gestures_in_either_order_confirm_one_step() {
    let mut s = AuthoringSession::new("Demo");
    s.push_frame(100, 100);
    assert_eq!(s.record_tap((15, 15), &no_quality).unwrap(), GestureOutcome::Pending);
    let out = s.record_region([10, 10, 20, 20], &no_quality).unwrap();
    assert_eq!(out, GestureOutcome::Confirmed { warnings: Vec::new() });
    assert_eq!(s.steps().len(), 1);
    assert_eq!(s.steps()[0].task.name, "AuthoredStep01");
    assert_eq!(s.steps()[0].task.roi, [10, 10, 20, 20]);
    assert_eq!(s.steps()[0].task.state, "field");
    assert_eq!(s.pending_tap(), None);

    assert_eq!(s.record_region([50, 50, 10, 10], &no_quality).unwrap(), GestureOutcome::Pending);
    assert!(matches!(s.record_tap((55, 55), &no_quality).unwrap(), GestureOutcome::Confirmed { .. }));
    assert_eq!(s.steps()[1].task.name, "AuthoredStep02");
}

#[test]
fn confirm_without_frame_is_refused_atomically() {
    let mut s = AuthoringSession::new("Demo");
    s.record_tap((1, 1), &no_quality).unwrap();
    let err = s.record_region([0, 0, 5, 5], &no_quality).unwrap_err();
    assert_eq!(err, AuthoringError::NoFrame);
    assert_eq!(s.pending_region(), None);
    assert_eq!(s.pending_tap(), Some((1, 1)));
    assert_eq!(err.message(), "no current frame: push a frame before completing a step");
}

#[test]
fn bad_regions_are_refused() {
    let mut s = AuthoringSession::new("Demo");
    s.push_frame(40, 30);
    let e = s.record_region([1, 2, 0, 4], &no_quality).unwrap_err();
    assert_eq!(e, AuthoringError::RoiEmpty { roi: [1, 2, 0, 4] });
    assert_eq!(e.message(), "roi [1, 2, 0, 4] has zero width or height");
    let e = s.record_region([50, 0, 4, 4], &no_quality).unwrap_err();
    assert_eq!(e.message(), "roi [50, 0, 4, 4] does not intersect the current frame (40x30)");
    assert_eq!(s.pending_region(), None);
}

#[test]
fn clipped_region_and_outside_tap_warn_with_step_prefix() {
    let mut s = AuthoringSession::new("Demo");
    s.push_frame(40, 30);
    s.record_tap((1, 1), &no_quality).unwrap();
    let quality = |_: [u32; 4]| vec!["flat template".to_string()];
    let out = s.record_region([10, 10, 50, 50], &quality).unwrap();
    match out {
        GestureOutcome::Confirmed { warnings } => {
            assert_eq!(warnings.len(), 3);
            assert_eq!(
                warnings[0],
                "AuthoredStep01: 警告: 認識領域 [10, 10, 50, 50] が現行フレーム (40x30) 外にはみ出したため 30x20 へクリップしました"
            );
            assert_eq!(warnings[1], "AuthoredStep01: flat template");
            assert!(warnings[2].starts_with("AuthoredStep01: 警告: 記録タップ位置 (1, 1) が認識領域 [10, 10, 30, 20] の外です"));
        }
        other => panic!("unexpected {other:?}"),
    }
    assert_eq!(s.warnings().len(), 3);
}

#[test]
fn undo_clears_pending_first_then_steps() {
    let mut s = AuthoringSession::new("Demo");
    s.push_frame(100, 100);
    s.record_tap((15, 15), &no_quality).unwrap();
    s.record_region([10, 10, 20, 20], &no_quality).unwrap();
    s.record_tap((1, 1), &no_quality).unwrap();
    assert!(s.undo());
    assert_eq!(s.pending_tap(), None);
    assert_eq!(s.steps().len(), 1);
    assert!(s.undo());
    assert!(s.steps().is_empty());
    assert!(!s.undo());
}

#[test]
fn scenario_tasks_chain_steps_in_order() {
    let mut s = AuthoringSession::new("Demo");
    s.push_frame(100, 100);
    for i in 0..3u32 {
        s.record_tap((10 * i + 1, 1), &no_quality).unwrap();
        s.record_region([10 * i, 0, 10, 10], &no_quality).unwrap();
    }
    let tasks = s.scenario_tasks();
    assert_eq!(tasks.len(), 3);
    assert_eq!(tasks[0].next, vec!["AuthoredStep02".to_string()]);
    assert_eq!(tasks[1].next, vec!["AuthoredStep03".to_string()]);
    assert!(tasks[2].next.is_empty());
}

// ---- authoring panel ----

fn identity_client(p: (u32, u32), _f: (u32, u32), _c: (u32, u32)) -> Result<(i32, i32), String> {
    Ok((p.0 as i32, p.1 as i32))
}

#[test]
fn gestures_without_session_are_discarded() {
    let mut panel = AuthoringPanel::new();
    let mut inj = RecordingInjector::new();
    assert_eq!(panel.canvas_tap((1, 1), &mut inj, &no_quality, identity_client), PanelGesture::Discarded);
    assert_eq!(panel.canvas_region([0, 0, 1, 1], &no_quality), PanelGesture::Discarded);
    assert_eq!(panel.status(), "セッション未開始: 先に「記録開始」してください");
}

#[test]
fn tap_is_injected_only_when_enabled_and_recorded() {
    let mut panel = AuthoringPanel::new();
    panel.set_name("  ");
    panel.start_session();
    assert_eq!(panel.name(), "MyFirstAuthoredRun");
    panel.push_frame(100, 100, Some((100, 100)));
    let mut inj = RecordingInjector::new();
    let g = panel.canvas_tap((5, 6), &mut inj, &no_quality, identity_client);
    assert_eq!(
        g,
        PanelGesture::Handled { outcome: GestureOutcome::Pending, record_error: None, injected: false, inject_error: None }
    );
    assert!(inj.clicks.is_empty());
    panel.set_inject_enabled(true);
    let g = panel.canvas_tap((7, 8), &mut inj, &no_quality, identity_client);
    assert!(matches!(g, PanelGesture::Handled { injected: true, .. }));
    assert_eq!(inj.clicks, vec![(7, 8)]);
    assert_eq!(panel.status(), "タップを記録しました (もう一方のジェスチャ待ち) / 実機へ注入しました");
}

#[test]
fn injection_failure_is_visible() {
    let mut panel = AuthoringPanel::new();
    panel.start_session();
    panel.push_frame(100, 100, None);
    panel.set_inject_enabled(true);
    let mut inj = UnavailableAuthoringInjector::new("not on this OS");
    let g = panel.canvas_tap((1, 1), &mut inj, &no_quality, identity_client);
    match g {
        PanelGesture::Handled { injected, inject_error, .. } => {
            assert!(!injected);
            assert_eq!(inject_error.as_deref(), Some("生キャプチャ寸法が未取得のため注入座標を決定できません"));
        }
        other => panic!("unexpected {other:?}"),
    }
    let mut inj2 = UnavailableAuthoringInjector::new("not on this OS");
    assert_eq!(inj2.click((0, 0)), Err("not on this OS".to_string()));
}

#[test]
fn region_then_tap_confirms_through_panel() {
    let mut panel = AuthoringPanel::new();
    panel.start_session();
    panel.push_frame(100, 100, Some((200, 200)));
    let g = panel.canvas_region([10, 10, 20, 20], &no_quality);
    assert!(matches!(g, PanelGesture::Handled { outcome: GestureOutcome::Pending, .. }));
    assert_eq!(panel.status(), "領域を記録しました (もう一方のジェスチャ待ち)");
    let mut inj = RecordingInjector::new();
    let g = panel.canvas_tap((15, 15), &mut inj, &no_quality, identity_client);
    assert!(matches!(g, PanelGesture::Handled { outcome: GestureOutcome::Confirmed { .. }, .. }));
    assert_eq!(panel.status(), "ステップ確定 (タップ) — 警告 0 件");
    assert_eq!(panel.session().unwrap().steps().len(), 1);
    assert!(panel.undo());
    assert_eq!(panel.status(), "取り消しました");
}

#[test]
fn finish_save_records_directory() {
    let mut panel = AuthoringPanel::new();
    assert!(!panel.finish_save(Ok(("/p/x".to_string(), 0))));
    panel.start_session();
    assert!(panel.finish_save(Ok(("/p/x".to_string(), 2))));
    assert_eq!(panel.status(), "保存しました: /p/x (警告 2 件)");
    assert_eq!(panel.session().unwrap().saved_to(), Some("/p/x"));
    assert!(panel.finish_save(Err("disk full".to_string())));
    assert_eq!(panel.status(), "保存失敗: disk full");
}

#[test]
fn roi_edit_rect_needs_positive_area() {
    let mut r = RoiEdit::default();
    assert_eq!(r.rect(), None);
    r.anchor = Some((30, 5));
    r.current = Some((10, 25));
    assert_eq!(r.rect(), Some(ScreenRegion::new(10, 5, 20, 20)));
    r.current = Some((30, 9));
    assert_eq!(r.rect(), None);
}

#[test]
fn gesture_status_lists_injection_error() {
    let s = gesture_status("タップ", &GestureOutcome::Pending, false, Some("x"));
    assert_eq!(s, "タップを記録しました (もう一方のジェスチャ待ち) / 注入失敗: x");
}

#[test]
fn app_button_labels_contain_no_emoji() {
    let labels = [
        "作成",
        "実演オーサリング",
        "バッチ評価",
        "スクリーンショットを開く",
        "正例フォルダ",
        "負例フォルダ",
        "停止（この画面で固定）",
        "ライブ開始",
        "ROI候補を提案",
        "テンプレート保存",
        "保存先変更",
        "記録開始",
        "元に戻す",
        "シナリオ保存",
        "実行",
    ];
    for l in labels {
        assert!(l.chars().all(|c| c < '\u{1F300}'), "label must not contain emoji: {l}");
    }
}

#[test]
fn record_lines_skip_blank_lines_and_carriage_returns() {
    let content = "{broken json\r\n{\"ok\":1}\n\n   \nnot-a-record";
    assert_eq!(record_lines(content), vec!["{broken json", "{\"ok\":1}", "not-a-record"]);
    assert!(record_lines("").is_empty());
    assert!(record_lines("\n\n").is_empty());
}

#[test]
fn framed_lines_read_back_unchanged() {
    let lines = vec!["{\"a\":1}".to_string(), "{\"b\":2}".to_string()];
    let content = frame_lines(&lines);
    assert_eq!(content, "{\"a\":1}\n{\"b\":2}\n");
    assert_eq!(record_lines(&content), lines);
    assert_eq!(frame_lines(&Vec::new()), "");
}

#[test]
fn leading_unknown_argument_changes_nothing() {
    let plain = parse_args_from(args(&["--exe", "g.exe", "-h"]));
    let with_unknown = parse_args_from(args(&["--verbose", "--exe", "g.exe", "-h"]));
    assert_eq!(plain, with_unknown);
}

#[test]
fn needle_larger_than_roi_is_warned_with_both_sizes() {
    assert_eq!(
        needle_roi_warning(false, (138, 40), Some([0, 0, 121, 50])).as_deref(),
        Some(
            "警告: テンプレート (138x40) が ROI (121x50) より大きい — ROI 内に needle が収まらず恒久 NoMatch になります (テンプレート差し替え時は ROI を対で更新してください)"
        )
    );
    assert_eq!(needle_roi_warning(true, (138, 40), Some([0, 0, 121, 50])), None);
    assert_eq!(needle_roi_warning(false, (138, 40), None), None);
}

use anaden::authoring_view::{
    best_match_region, best_score_position, can_save_authored, can_start_live, heatmap_search, pending_guide,
    proposal_button, proposals_status, task_name_or_default, HEATMAP_DOWNSCALE,
};

#[test]
fn best_score_is_first_peak_row_by_row() {
    // 3 wide, 2 high
    let map = vec![1u8, 9, 3, 4, 9, 2];
    assert_eq!(best_score_position(&map, 3, 2), (1, 0));
    let map = vec![0u8, 0, 0, 0, 7, 0];
    assert_eq!(best_score_position(&map, 3, 2), (1, 1));
    assert_eq!(best_score_position(&vec![0u8; 6], 3, 2), (0, 0));
    assert_eq!(best_score_position(&Vec::new(), 0, 5), (0, 0));
}

#[test]
fn best_match_scales_back_to_frame() {
    let map = vec![0u8, 0, 0, 0, 0, 200];
    let r = best_match_region(&map, 3, 2, 40, 30);
    assert_eq!(HEATMAP_DOWNSCALE, 4);
    assert_eq!(r, ScreenRegion { x: 8, y: 4, width: 40, height: 30 });
}

#[test]
fn heatmap_covers_every_template_position() {
    assert_eq!(heatmap_search(1280, 720, 100, 50), ScreenRegion { x: 0, y: 0, width: 1180, height: 670 });
    assert_eq!(heatmap_search(80, 720, 100, 50), ScreenRegion { x: 0, y: 0, width: 0, height: 670 });
}

#[test]
fn authoring_buttons() {
    assert!(can_start_live("AnotherEden.exe"));
    assert!(!can_start_live("   "));
    assert!(!can_start_live(""));
    assert_eq!(proposal_button(true, false), (true, "ROI候補を提案"));
    assert_eq!(proposal_button(true, true), (false, "ROI候補を計算中…"));
    assert_eq!(proposal_button(false, false), (false, "ROI候補を提案"));
    assert!(can_save_authored(true, true));
    assert!(!can_save_authored(true, false));
    assert!(!can_save_authored(false, true));
}

#[test]
fn authoring_texts() {
    assert_eq!(proposals_status(3), "ROI候補: 3 件（スコア順）");
    assert_eq!(
        pending_guide(Some((10, 20)), None).as_deref(),
        Some("タップ (10,20) 記録済み — ドラッグで領域を確定")
    );
    assert_eq!(
        pending_guide(None, Some([1, 2, 30, 40])).as_deref(),
        Some("領域 [1, 2, 30, 40] 記録済み — クリックでタップを確定")
    );
    assert_eq!(pending_guide(None, None), None);
    assert_eq!(pending_guide(Some((1, 1)), Some([1, 2, 3, 4])), None);
}

#[test]
fn drag_selects_the_span_of_press_and_pointer() {
    let mut roi = RoiEdit::default();
    roi.observe_pointer(true, true, Some((50, 60)));
    assert!(roi.dragging);
    assert_eq!(roi.rect(), None);
    roi.observe_pointer(false, true, None);
    roi.observe_pointer(false, true, Some((10, 100)));
    assert_eq!(roi.rect(), Some(ScreenRegion { x: 10, y: 60, width: 40, height: 40 }));
    roi.observe_pointer(false, false, None);
    assert!(!roi.dragging);
    assert_eq!(roi.rect(), Some(ScreenRegion { x: 10, y: 60, width: 40, height: 40 }));
}

#[test]
fn history_log_preview_shows_last_lines() {
    let lines: Vec<String> = (1..=25).map(|i| format!("line {i}")).collect();
    let rec = RunRecord {
        started_at_unix: 5,
        strategy: "field_loop".to_string(),
        outcome: RunOutcome::Success,
        exit_code: Some(0),
        log_tail: lines,
    };
    assert_eq!(log_preview_heading(&rec), "「field_loop」のログ末尾:");
    let expected: Vec<String> = (6..=25).map(|i| format!("line {i}")).collect();
    assert_eq!(log_preview(&rec), expected.join("\n"));
    let short = RunRecord { log_tail: vec!["a".to_string(), "b".to_string()], ..rec.clone() };
    assert_eq!(log_preview(&short), "a\nb");
    let empty = RunRecord { log_tail: Vec::new(), ..rec };
    assert_eq!(log_preview(&empty), "");
}

#[test]
fn history_settings_status_line() {
    assert_eq!(
        settings_status_line(&SettingsStatus::Succeeded("/tmp/s.toml".to_string())).as_deref(),
        Some("設定: /tmp/s.toml")
    );
    assert_eq!(settings_status_line(&SettingsStatus::Failed("失敗".to_string())).as_deref(), Some("失敗"));
    assert_eq!(settings_status_line(&SettingsStatus::NoResult), None);
}

#[test]
fn task_name_defaults_when_blank() {
    assert_eq!(task_name_or_default("  boss_gate  "), "boss_gate");
    assert_eq!(task_name_or_default("   "), "template_01");
    assert_eq!(task_name_or_default(""), "template_01");
}

#[test]
fn proposal_loads_as_finished_drag() {
    let mut roi = RoiEdit::default();
    roi.dragging = true;
    roi.apply_proposal(ScreenRegion::new(96, 192, 96, 96));
    assert_eq!(roi.anchor, Some((96, 192)));
    assert_eq!(roi.current, Some((192, 288)));
    assert!(!roi.dragging);
    assert_eq!(roi.rect(), Some(ScreenRegion::new(96, 192, 96, 96)));
}

#[test]
fn load_settings_returns_saved_selection() {
    let mut p = HistoryPanel::new();
    let path = "/tmp/anaden/settings.toml";
    p.save_settings(path, Ok(()));
    let loaded = p.load_settings(path, Some(("field_loop".to_string(), 3u32)));
    assert!(loaded.is_some());
    assert_eq!(p.settings_status(), &SettingsStatus::Succeeded(path.to_string()));
}

#[test]
fn failed_recording_never_reaches_the_device() {
    let mut panel = AuthoringPanel::new();
    panel.start_session();
    panel.set_inject_enabled(true);
    // A region is pending and no frame came yet: confirming the step with
    // this tap fails, and nothing is clicked.
    panel.canvas_region([0, 0, 10, 10], &no_quality);
    let mut inj = RecordingInjector::new();
    let g = panel.canvas_tap((5, 6), &mut inj, &no_quality, identity_client);
    assert!(matches!(g, PanelGesture::Handled { record_error: Some(_), injected: false, .. }));
    assert!(inj.clicks.is_empty());
}

#[test]
fn rejected_click_is_not_reported_as_injected() {
    let mut panel = AuthoringPanel::new();
    panel.start_session();
    panel.push_frame(100, 100, Some((100, 100)));
    panel.set_inject_enabled(true);
    let mut inj = RecordingInjector::new();
    inj.fail_next = true;
    let g = panel.canvas_tap((5, 6), &mut inj, &no_quality, identity_client);
    match g {
        PanelGesture::Handled { injected, inject_error, .. } => {
            assert!(!injected);
            assert!(inject_error.is_some());
        }
        other => panic!("unexpected {other:?}"),
    }
    assert!(inj.clicks.is_empty());
}

#[test]
fn authored_steps_recognise_by_correlation_and_tap_the_match() {
    let mut s = AuthoringSession::new("Demo");
    s.push_frame(100, 100);
    s.record_tap((5, 5), &no_quality).unwrap();
    s.record_region([0, 0, 10, 10], &no_quality).unwrap();
    let step = &s.steps()[0];
    assert_eq!(step.task.name, "AuthoredStep01");
    assert_eq!(step.task.algorithm, Algorithm::Ccoeff);
    assert_eq!(step.task.template, "AuthoredStep01.png");
    assert_eq!(step.task.action, PipelineActionKind::ClickSelf);
    assert!(step.task.next.is_empty());
    let tasks = s.scenario_tasks();
    assert_eq!(tasks[0].algorithm, Algorithm::Ccoeff);
    assert_eq!(tasks[0].template, "AuthoredStep01.png");
    assert_eq!(tasks[0].action, PipelineActionKind::ClickSelf);
}
