use engine_core::modules::gameplay::game::{GameInner, Time};
use engine_core::{GameState, WindowOptions};

#[test]
fn a_fresh_time_source_starts_at_frame_zero() {
    let t = Time::new();
    assert_eq!(t.frame, 0);
    assert_eq!(t.delta_micros, 0);
    assert_eq!(t.now_micros, 0);
}

#[test]
fn each_tick_advances_the_frame_exactly_once_and_never_backwards() {
    let mut t = Time::new();
    t.tick();
    assert_eq!(t.frame, 1);
    let first = t.now_micros;
    t.tick();
    assert_eq!(t.frame, 2);
    assert!(t.now_micros >= first);
    assert_eq!(t.delta_micros, t.now_micros - first);
}

#[test]
fn advance_measures_the_delta_between_samples() {
    let mut t = Time::new();
    t.advance(250);
    assert_eq!(t.frame, 1);
    assert_eq!(t.now_micros, 250);
    assert_eq!(t.delta_micros, 250);
    t.advance(1_000);
    assert_eq!(t.now_micros, 1_000);
    assert_eq!(t.delta_micros, 750);
    // a sample that went backwards keeps time where it was
    t.advance(400);
    assert_eq!(t.now_micros, 1_000);
    assert_eq!(t.delta_micros, 0);
}

#[test]
fn a_fresh_game_is_empty() {
    let game = GameInner::new();
    assert!(game.game_objects.is_empty());
    assert!(game.pending_creates.is_empty());
    assert!(game.pending_deletes.is_empty());
    assert!(game.pending_coroutines.is_empty());
    assert_eq!(game.time.frame, 0);
}

#[test]
fn window_options_serve_as_their_own_game_state() {
    let options = WindowOptions { width: 320, height: 200, title: String::from("demo") };
    let copy = options.window_options();
    assert_eq!(copy.width, 320);
    assert_eq!(copy.height, 200);
    assert_eq!(copy.title, "demo");
}
