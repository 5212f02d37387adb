use anaden::driver::{InputCommand, PipelineState};
use anaden::pipeline_step::{action_to_command, advance_next, Action};
use anaden::studio_task::ScreenRegion;

fn identity(r: [u32; 4]) -> [u32; 4] {
    r
}

fn next(v: &[&str]) -> Vec<String> {
    v.iter().map(|s| s.to_string()).collect()
}

#[test]
fn click_self_with_region_taps_center() {
    let region = ScreenRegion::new(100, 200, 80, 60);
    assert_eq!(action_to_command(&Action::ClickSelf, Some(region), &identity), Some(InputCommand::Tap { x: 140, y: 230 }));
}

#[test]
fn click_self_without_region_returns_none() {
    assert_eq!(action_to_command(&Action::ClickSelf, None, &identity), None);
}

#[test]
fn click_rect_taps_roi_center_ignoring_matched_region() {
    let action = Action::ClickRect { roi: ScreenRegion::new(520, 320, 240, 80) };
    let matched = Some(ScreenRegion::new(0, 0, 10, 10));
    assert_eq!(action_to_command(&action, matched, &identity), Some(InputCommand::Tap { x: 640, y: 360 }));
}

#[test]
fn swipe_centers_from_to() {
    let action = Action::Swipe { from: ScreenRegion::new(100, 500, 40, 40), to: ScreenRegion::new(100, 100, 40, 40) };
    assert_eq!(
        action_to_command(&action, None, &identity),
        Some(InputCommand::Swipe { from: (120, 520), to: (120, 120) })
    );
}

#[test]
fn do_nothing_returns_none() {
    assert_eq!(action_to_command(&Action::DoNothing, Some(ScreenRegion::new(10, 10, 10, 10)), &identity), None);
}

#[test]
fn stop_returns_none() {
    assert_eq!(action_to_command(&Action::Stop, Some(ScreenRegion::new(10, 10, 10, 10)), &identity), None);
}

#[test]
fn click_rect_region_is_mapped_before_its_centre() {
    let half = |r: [u32; 4]| [r[0] / 2, r[1] / 2, r[2] / 2, r[3] / 2];
    let action = Action::ClickRect { roi: ScreenRegion::new(520, 320, 240, 80) };
    assert_eq!(action_to_command(&action, None, &half), Some(InputCommand::Tap { x: 320, y: 180 }));
}

#[test]
fn advance_returns_first_next() {
    assert_eq!(advance_next(&Action::ClickSelf, &next(&["LoadGame", "Menu"])), Some("LoadGame".to_string()));
}

#[test]
fn advance_empty_next_returns_none() {
    assert_eq!(advance_next(&Action::ClickSelf, &next(&[])), None);
}

#[test]
fn advance_stop_returns_none_even_with_next() {
    assert_eq!(advance_next(&Action::Stop, &next(&["Next"])), None);
}

#[test]
fn advance_do_nothing_advances() {
    assert_eq!(advance_next(&Action::DoNothing, &next(&["X"])), Some("X".to_string()));
}

#[test]
fn tick_match_emits_command_and_advances() {
    let mut state = PipelineState::new("Title");
    let action = Action::ClickRect { roi: ScreenRegion::new(520, 320, 240, 80) };
    let result = state.tick_matched(&action, &next(&["LoadGame"]), ScreenRegion::new(150, 75, 40, 40), &identity);
    assert_eq!(result.command, Some(InputCommand::Tap { x: 640, y: 360 }), "ClickRect roi center");
    assert_eq!(result.next_current, Some("LoadGame".to_string()));
    assert_eq!(state.current(), "LoadGame", "current advanced to next[0]");
}

#[test]
fn tick_stop_returns_no_command_and_none_next() {
    let mut state = PipelineState::new("Title");
    let result = state.tick_matched(&Action::Stop, &next(&["Ignored"]), ScreenRegion::new(150, 75, 40, 40), &identity);
    assert_eq!(result.command, None, "Stop emits no command");
    assert_eq!(result.next_current, None, "Stop yields no next");
    assert_eq!(state.current(), "Title", "current unchanged on Stop");
}

#[test]
fn click_self_uses_matched_region_in_tick() {
    let mut state = PipelineState::new("Title");
    let result = state.tick_matched(&Action::ClickSelf, &next(&[]), ScreenRegion::new(150, 75, 40, 40), &identity);
    assert_eq!(result.command, Some(InputCommand::Tap { x: 170, y: 95 }));
    assert_eq!(result.matched_region, Some(ScreenRegion::new(150, 75, 40, 40)));
    assert_eq!(state.current(), "Title");
}
