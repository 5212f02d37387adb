use anaden::state_machine::{GameStateMachine, UNKNOWN_SCENE};

const TITLE: u64 = 1;
const FIELD: u64 = 2;
const BATTLE: u64 = 3;

#[test]
fn state_transition_updates_current() {
    let mut sm = GameStateMachine::new(UNKNOWN_SCENE);
    let result = sm.transition(TITLE);
    assert_eq!(result, TITLE);
    assert_eq!(sm.current(), TITLE);
}

#[test]
fn unknown_streak_counting() {
    let mut sm = GameStateMachine::new(UNKNOWN_SCENE);
    sm.transition(UNKNOWN_SCENE);
    sm.transition(UNKNOWN_SCENE);
    sm.transition(UNKNOWN_SCENE);
    assert_eq!(sm.unknown_streak(), 3);
}

#[test]
fn unknown_streak_resets_on_recognition() {
    let mut sm = GameStateMachine::new(UNKNOWN_SCENE);
    sm.transition(UNKNOWN_SCENE);
    assert_eq!(sm.unknown_streak(), 1);
    sm.transition(TITLE);
    assert_eq!(sm.unknown_streak(), 0);
}

#[test]
fn loop_detection_alternating_states() {
    let mut sm = GameStateMachine::new(UNKNOWN_SCENE);
    for _ in 0..3 {
        sm.transition(TITLE);
        sm.transition(FIELD);
    }
    assert!(sm.history().len() >= 4);
    assert_eq!(sm.history(), &[UNKNOWN_SCENE, TITLE, FIELD, TITLE, FIELD, TITLE][..]);
    assert!(!sm.is_looping());
}

#[test]
fn no_loop_with_diverse_states() {
    let mut sm = GameStateMachine::new(UNKNOWN_SCENE);
    for s in [TITLE, FIELD, BATTLE] {
        sm.transition(s);
    }
    assert!(!sm.is_looping());
    assert_eq!(sm.history(), &[UNKNOWN_SCENE, TITLE, FIELD][..]);
}

#[test]
fn same_scene_again_leaves_history_alone() {
    let mut sm = GameStateMachine::new(TITLE);
    sm.transition(TITLE);
    sm.transition(TITLE);
    assert!(sm.history().is_empty());
    assert_eq!(sm.unknown_streak(), 0);
}

#[test]
fn history_keeps_the_newest_ten() {
    let mut sm = GameStateMachine::new(100);
    for s in 101..=115u64 {
        sm.transition(s);
    }
    let expected: Vec<u64> = (105..=114u64).collect();
    assert_eq!(sm.history(), &expected[..]);
    assert_eq!(sm.current(), 115);
}

#[test]
fn loop_check_stays_false_after_transitions() {
    let mut sm = GameStateMachine::new(UNKNOWN_SCENE);
    // A scene is only recorded when it changes, so four equal entries arise
    // from leaving the same scene four times towards different scenes.
    for other in [TITLE, FIELD, BATTLE, 7] {
        sm.transition(other);
        sm.transition(UNKNOWN_SCENE);
    }
    let h = sm.history().to_vec();
    assert_eq!(h, vec![UNKNOWN_SCENE, TITLE, UNKNOWN_SCENE, FIELD, UNKNOWN_SCENE, BATTLE, UNKNOWN_SCENE, 7]);
    assert!(!sm.is_looping());
}

#[test]
fn streak_counts_only_trailing_unknowns() {
    let mut sm = GameStateMachine::new(TITLE);
    for s in [UNKNOWN_SCENE, UNKNOWN_SCENE, FIELD, UNKNOWN_SCENE, UNKNOWN_SCENE] {
        sm.transition(s);
    }
    assert_eq!(sm.unknown_streak(), 2);
}

use anaden::orchestrator::{
    decide_actions, OrchestratorRun, RunEnd, SceneDecision, SceneKind, CAPTURE_RETRY_PAUSE_MS,
    DEFAULT_LOOP_INTERVAL_MS,
};
use anaden::recovery::RecoveryInput;

#[test]
fn default_actions_per_scene_kind() {
    assert_eq!(
        decide_actions(None, SceneKind::TitleScreen),
        vec![RecoveryInput::Wait { ms: 2000 }, RecoveryInput::Tap { x: 540, y: 1200 }]
    );
    assert_eq!(
        decide_actions(None, SceneKind::Dialog),
        vec![RecoveryInput::Wait { ms: 500 }, RecoveryInput::Tap { x: 750, y: 1500 }]
    );
    assert_eq!(decide_actions(None, SceneKind::Loading), vec![RecoveryInput::Wait { ms: 2000 }]);
    assert_eq!(decide_actions(None, SceneKind::Other), vec![RecoveryInput::Wait { ms: 300 }]);
}

#[test]
fn strategy_actions_take_precedence() {
    let mine = vec![RecoveryInput::Tap { x: 1, y: 2 }];
    assert_eq!(decide_actions(Some(mine.clone()), SceneKind::TitleScreen), mine);
    assert_eq!(decide_actions(Some(Vec::new()), SceneKind::Loading), Vec::new());
}

#[test]
fn run_end_reasons() {
    assert_eq!(RunEnd::MaxRuntimeReached.reason(), "max_runtime_reached");
    assert_eq!(RunEnd::TerminalState.reason(), "terminal_state");
    assert_eq!(RunEnd::RecoveryGaveUp.reason(), "recovery_gave_up");
    assert_eq!(CAPTURE_RETRY_PAUSE_MS, 1000);
    assert_eq!(DEFAULT_LOOP_INTERVAL_MS, 500);
}

#[test]
fn runtime_limit_ends_run_only_when_set() {
    let mut unlimited = OrchestratorRun::new(5, 0);
    assert_eq!(unlimited.begin_iteration(true), None);
    assert_eq!(unlimited.total_loops(), 1);
    let mut limited = OrchestratorRun::new(5, 30);
    assert_eq!(limited.begin_iteration(false), None);
    assert_eq!(limited.begin_iteration(true), Some(RunEnd::MaxRuntimeReached));
    assert_eq!(limited.total_loops(), 2);
}

#[test]
fn terminal_scene_ends_run_from_second_iteration() {
    let mut run = OrchestratorRun::new(5, 0);
    run.begin_iteration(false);
    assert_eq!(run.observe_scene(TITLE, true), SceneDecision::Act);
    run.begin_iteration(false);
    assert_eq!(run.observe_scene(TITLE, true), SceneDecision::Finish(RunEnd::TerminalState));
}

#[test]
fn unknown_screens_recover_then_give_up() {
    let mut run = OrchestratorRun::new(5, 0);
    let mut decisions = Vec::new();
    for _ in 0..5 {
        run.begin_iteration(false);
        decisions.push(run.observe_scene(UNKNOWN_SCENE, false));
    }
    let back = vec![
        RecoveryInput::Wait { ms: 500 },
        RecoveryInput::Tap { x: 50, y: 2300 },
        RecoveryInput::Wait { ms: 1000 },
    ];
    assert_eq!(
        decisions,
        vec![
            SceneDecision::Recover(vec![RecoveryInput::Wait { ms: 1000 }]),
            SceneDecision::Recover(vec![RecoveryInput::Wait { ms: 1000 }]),
            SceneDecision::Recover(back.clone()),
            SceneDecision::Recover(back),
            SceneDecision::Finish(RunEnd::RecoveryGaveUp),
        ]
    );
    assert_eq!(run.unknown_streak(), 5);
}

#[test]
fn low_retry_limit_gives_up_sooner() {
    let mut run = OrchestratorRun::new(1, 0);
    run.begin_iteration(false);
    assert!(matches!(run.observe_scene(UNKNOWN_SCENE, false), SceneDecision::Recover(_)));
    run.begin_iteration(false);
    assert_eq!(run.observe_scene(UNKNOWN_SCENE, false), SceneDecision::Finish(RunEnd::RecoveryGaveUp));
}

#[test]
fn recognised_scene_resets_recovery() {
    let mut run = OrchestratorRun::new(5, 0);
    for _ in 0..4 {
        run.begin_iteration(false);
        run.observe_scene(UNKNOWN_SCENE, false);
    }
    run.begin_iteration(false);
    assert_eq!(run.observe_scene(FIELD, false), SceneDecision::Act);
    run.begin_iteration(false);
    assert_eq!(
        run.observe_scene(UNKNOWN_SCENE, false),
        SceneDecision::Recover(vec![RecoveryInput::Wait { ms: 1000 }])
    );
}

#[test]
fn state_counts_add_up_to_scenes_seen() {
    let mut run = OrchestratorRun::new(5, 0);
    for s in [TITLE, FIELD, TITLE, UNKNOWN_SCENE, TITLE] {
        run.begin_iteration(false);
        run.observe_scene(s, false);
    }
    assert_eq!(run.state_counts(), &vec![(TITLE, 3), (FIELD, 1), (UNKNOWN_SCENE, 1)]);
    assert_eq!(run.scenes_seen(), 5);
    assert_eq!(run.total_loops(), 5);
}

use anaden::registry::StrategyRegistry;

#[derive(Debug, Clone, Copy, PartialEq, Eq)]
enum MiniGameType {
    Fishing,
    MogekoHole,
}

#[derive(Debug, Clone, PartialEq, Eq)]
enum Scene {
    MiniGame(MiniGameType),
    TitleScreen,
}

struct DummyFishingStrategy;

impl DummyFishingStrategy {
    fn game_type(&self) -> MiniGameType {
        MiniGameType::Fishing
    }
    fn decide_actions(&self, state: &Scene) -> Option<Vec<(u32, u32)>> {
        match state {
            Scene::MiniGame(MiniGameType::Fishing) => Some(vec![(540, 1200)]),
            _ => None,
        }
    }
    fn name(&self) -> &str {
        "dummy-fishing"
    }
}

fn register_dummy(registry: &mut StrategyRegistry<DummyFishingStrategy>) {
    let s = DummyFishingStrategy;
    let name = s.name().to_string();
    registry.register(&name, s);
}

#[test]
fn register_and_find_strategy() {
    let mut registry = StrategyRegistry::new();
    register_dummy(&mut registry);
    let found = registry.find_for_minigame(&|s: &DummyFishingStrategy| s.game_type() == MiniGameType::Fishing);
    assert!(found.is_some());
    let found = registry.find_for_minigame(&|s: &DummyFishingStrategy| s.game_type() == MiniGameType::MogekoHole);
    assert!(found.is_none());
}

#[test]
fn find_strategy_by_state() {
    let mut registry = StrategyRegistry::new();
    register_dummy(&mut registry);
    let fishing = Scene::MiniGame(MiniGameType::Fishing);
    let found = registry.find_for_state(&|s: &DummyFishingStrategy| s.decide_actions(&fishing).is_some());
    assert!(found.is_some());
    let title = Scene::TitleScreen;
    let found = registry.find_for_state(&|s: &DummyFishingStrategy| s.decide_actions(&title).is_some());
    assert!(found.is_none());
}

#[test]
fn default_is_empty_and_equivalent_to_new() {
    let via_default: StrategyRegistry<DummyFishingStrategy> = StrategyRegistry::default();
    let via_new: StrategyRegistry<DummyFishingStrategy> = StrategyRegistry::new();
    assert!(via_default.is_empty());
    assert_eq!(via_default.len(), 0);
    assert_eq!(via_new.len(), via_default.len());
}

#[test]
fn default_then_register_finds_strategy() {
    let mut registry = StrategyRegistry::default();
    register_dummy(&mut registry);
    assert_eq!(registry.len(), 1);
    assert!(registry
        .find_for_minigame(&|s: &DummyFishingStrategy| s.game_type() == MiniGameType::Fishing)
        .is_some());
}

#[test]
fn registering_a_taken_name_replaces_in_place() {
    let mut registry: StrategyRegistry<u32> = StrategyRegistry::new();
    registry.register("a", 1);
    registry.register("b", 2);
    registry.register("a", 3);
    assert_eq!(registry.len(), 2);
    assert_eq!(registry.find_for_state(&|v: &u32| *v == 3), Some(&3));
    assert_eq!(registry.find_for_state(&|v: &u32| *v == 1), None);
    assert_eq!(registry.find_for_state(&|v: &u32| *v > 1), Some(&3));
}
