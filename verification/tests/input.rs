use engine_core::modules::gameplay::input::{normalize_key_name, InputInner, KeyAction, KeyQuery, KeyState};

#[test]
fn unknown_key_is_released() {
    let input = InputInner::new();
    assert_eq!(input.check_key(7), KeyState::Released);
    assert_eq!(input.key_state(7, 0), KeyQuery::Released);
    assert!(!input.is_key_down(7));
    assert!(!input.is_key_hit(7, 0));
}

#[test]
fn key_is_hit_only_on_the_press_frame() {
    let mut input = InputInner::new();
    input.handle_key_event(7, KeyAction::Press, 10);
    assert_eq!(input.key_state(7, 10), KeyQuery::Hit);
    assert!(input.is_key_hit(7, 10));
    assert!(input.is_key_down(7));
}

#[test]
fn held_key_is_down_on_subsequent_frames() {
    let mut input = InputInner::new();
    input.handle_key_event(7, KeyAction::Press, 10);
    assert_eq!(input.key_state(7, 11), KeyQuery::Down);
    assert_eq!(input.key_state(7, 250), KeyQuery::Down);
    assert!(!input.is_key_hit(7, 11));
    assert!(input.is_key_down(7));
}

#[test]
fn released_key_reports_released() {
    let mut input = InputInner::new();
    input.handle_key_event(7, KeyAction::Press, 10);
    input.handle_key_event(7, KeyAction::Release, 12);
    assert_eq!(input.key_state(7, 12), KeyQuery::Released);
    assert!(!input.is_key_down(7));
    assert!(!input.is_key_hit(7, 12));
}

#[test]
fn repeat_events_change_nothing() {
    let mut input = InputInner::new();
    input.handle_key_event(7, KeyAction::Press, 10);
    input.handle_key_event(7, KeyAction::Repeat, 15);
    assert_eq!(input.check_key(7), KeyState::Pressed(10));
}

#[test]
fn a_second_press_refreshes_the_transition_frame() {
    let mut input = InputInner::new();
    input.handle_key_event(7, KeyAction::Press, 10);
    input.handle_key_event(7, KeyAction::Release, 12);
    input.handle_key_event(7, KeyAction::Press, 20);
    assert_eq!(input.key_state(7, 20), KeyQuery::Hit);
    assert_eq!(input.key_state(7, 21), KeyQuery::Down);
}

#[test]
fn other_keys_are_unaffected() {
    let mut input = InputInner::new();
    input.handle_key_event(7, KeyAction::Press, 10);
    input.handle_key_event(9, KeyAction::Press, 11);
    input.handle_key_event(7, KeyAction::Release, 12);
    assert_eq!(input.check_key(9), KeyState::Pressed(11));
    assert_eq!(input.check_key(7), KeyState::Released);
}

#[test]
fn bare_digit_key_names_gain_an_underscore() {
    assert_eq!(normalize_key_name(String::from("1")), "_1");
    assert_eq!(normalize_key_name(String::from("0")), "_0");
    assert_eq!(normalize_key_name(String::from("9")), "_9");
}

#[test]
fn other_key_names_are_kept_as_they_are() {
    assert_eq!(normalize_key_name(String::from("escape")), "escape");
    assert_eq!(normalize_key_name(String::from("a")), "a");
    assert_eq!(normalize_key_name(String::from("12")), "12");
    assert_eq!(normalize_key_name(String::from("")), "");
}
