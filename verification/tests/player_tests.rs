use quantum_intruder::angle::{wrap_angle, EIGHTH_TURN, FULL_TURN, HALF_TURN, QUARTER_TURN};
use quantum_intruder::input::{
    camera_delta, translation_angle, update_cursor_lock_state, Input, KeysPressed,
};
use quantum_intruder::player::{
    calculate_pitch_rotation, calculate_player_translation, camera_pitch_control, player_movement,
    player_yaw_control, PlayerTranslation, PITCH_LIMIT, PLAYER_SPEED,
};

fn keys(w: bool, s: bool, a: bool, d: bool) -> KeysPressed {
    KeysPressed { w, s, a, d }
}

#[test]
fn wrap_keeps_normalized_angles() {
    assert_eq!(wrap_angle(0), 0);
    assert_eq!(wrap_angle(123), 123);
    assert_eq!(wrap_angle(-HALF_TURN), -HALF_TURN);
    assert_eq!(wrap_angle(HALF_TURN - 1), HALF_TURN - 1);
}

#[test]
fn wrap_half_turn_maps_to_negative_half_turn() {
    assert_eq!(wrap_angle(HALF_TURN), -HALF_TURN);
}

#[test]
fn wrap_subtracts_whole_turns() {
    assert_eq!(wrap_angle(FULL_TURN + 100), 100);
    assert_eq!(wrap_angle(3 * FULL_TURN - 5), -5);
    assert_eq!(wrap_angle(-FULL_TURN - 100), -100);
    assert_eq!(wrap_angle(-HALF_TURN - 1), HALF_TURN - 1);
}

#[test]
fn pitch_sum_within_limit_is_kept() {
    assert_eq!(calculate_pitch_rotation(100, -50), 50);
    assert_eq!(calculate_pitch_rotation(0, 0), 0);
    assert_eq!(calculate_pitch_rotation(-PITCH_LIMIT, PITCH_LIMIT), 0);
}

#[test]
fn pitch_clamps_at_upper_limit() {
    assert_eq!(calculate_pitch_rotation(0, 2_000_000), PITCH_LIMIT);
    assert_eq!(calculate_pitch_rotation(PITCH_LIMIT, 1), PITCH_LIMIT);
}

#[test]
fn pitch_clamps_at_lower_limit() {
    assert_eq!(calculate_pitch_rotation(0, -2_000_000), -PITCH_LIMIT);
    assert_eq!(calculate_pitch_rotation(-PITCH_LIMIT, -1), -PITCH_LIMIT);
}

#[test]
fn pitch_limit_is_just_short_of_vertical() {
    assert_eq!(PITCH_LIMIT, QUARTER_TURN - 1);
}

#[test]
fn free_cursor_holds_camera_pitch() {
    let mut input = Input::default();
    camera_delta(&mut input, 100, 100);
    let mut pitch: i64 = 250;
    camera_pitch_control(&mut pitch, &input);
    assert_eq!(pitch, 250);
}

#[test]
fn locked_cursor_applies_pitch_delta() {
    let mut input = Input::default();
    update_cursor_lock_state(&mut input, true);
    camera_delta(&mut input, 0, -4);
    let mut pitch: i64 = 250;
    camera_pitch_control(&mut pitch, &input);
    assert_eq!(pitch, 2250);
}

#[test]
fn free_cursor_holds_player_yaw() {
    let mut input = Input::default();
    camera_delta(&mut input, 100, 0);
    let mut yaw: i64 = -300;
    player_yaw_control(&mut yaw, &input);
    assert_eq!(yaw, -300);
}

#[test]
fn locked_cursor_turns_player_yaw() {
    let mut input = Input::default();
    update_cursor_lock_state(&mut input, true);
    camera_delta(&mut input, -6, 0);
    let mut yaw: i64 = -300;
    player_yaw_control(&mut yaw, &input);
    assert_eq!(yaw, 2700);
}

#[test]
fn player_yaw_wraps_around() {
    let mut input = Input::default();
    update_cursor_lock_state(&mut input, true);
    camera_delta(&mut input, -2, 0);
    let mut yaw: i64 = HALF_TURN - 400;
    player_yaw_control(&mut yaw, &input);
    assert_eq!(yaw, -HALF_TURN + 600);
}

#[test]
fn no_translation_without_movement_keys() {
    let mut input = Input::default();
    translation_angle(&mut input, keys(false, false, false, false));
    assert_eq!(calculate_player_translation(0, &input, 1000), None);
}

#[test]
fn forward_key_walks_along_player_yaw() {
    let mut input = Input::default();
    translation_angle(&mut input, keys(true, false, false, false));
    let got = calculate_player_translation(QUARTER_TURN, &input, 1000);
    assert_eq!(
        got,
        Some(PlayerTranslation { heading: QUARTER_TURN, distance: 1000 * PLAYER_SPEED })
    );
}

#[test]
fn translation_heading_wraps_around() {
    let mut input = Input::default();
    translation_angle(&mut input, keys(false, true, false, false));
    let got = calculate_player_translation(EIGHTH_TURN, &input, 500);
    assert_eq!(
        got,
        Some(PlayerTranslation { heading: -3 * EIGHTH_TURN, distance: 5000 })
    );
}

#[test]
fn free_cursor_keeps_controller_translation() {
    let mut input = Input::default();
    translation_angle(&mut input, keys(true, false, false, false));
    let old = Some(PlayerTranslation { heading: 7, distance: 8 });
    let mut controller = old;
    player_movement(&mut controller, 0, &input, 1000);
    assert_eq!(controller, old);
}

#[test]
fn locked_cursor_replaces_controller_translation() {
    let mut input = Input::default();
    update_cursor_lock_state(&mut input, true);
    translation_angle(&mut input, keys(true, false, false, false));
    let mut controller = Some(PlayerTranslation { heading: 7, distance: 8 });
    player_movement(&mut controller, 100, &input, 2000);
    assert_eq!(
        controller,
        Some(PlayerTranslation { heading: 100, distance: 20_000 })
    );
    translation_angle(&mut input, keys(true, true, false, false));
    player_movement(&mut controller, 100, &input, 2000);
    assert_eq!(controller, None);
}
