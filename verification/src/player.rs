//! The player: the camera's pitch, the body's yaw, and the per-frame
//! movement request handed to the character controller.
//!
//! All three updates run only while the cursor is locked. The engine reads
//! the player's transform and writes the movement request back; this module
//! owns the arithmetic in between, over fixed-point angles.

use vstd::prelude::*;

use crate::angle::QUARTER_TURN;
use crate::angle::is_normalized;
use crate::angle::wrap_angle;
use crate::angle::wrapped;
use crate::input::CursorLockState;
use crate::input::Input;
use crate::input::MAX_CAMERA_DELTA;

verus! {

/// Movement speed, in micrometers per microsecond (ten meters per second).
pub const PLAYER_SPEED: i64 = 10;

/// The steepest pitch the camera may take: one step short of straight up or
/// straight down, so the view never inverts.
pub const PITCH_LIMIT: i64 = QUARTER_TURN - 1;

/// The longest frame the model admits, in microseconds (ten seconds).
pub const MAX_FRAME_MICROS: u64 = 10_000_000;

/// The pitch after applying a mouse delta: the sum, clamped to
/// `[-PITCH_LIMIT, PITCH_LIMIT]`.
pub open spec fn clamped_pitch(current_pitch: int, pitch_delta: int) -> int {
    let sum = current_pitch + pitch_delta;
    if sum < -PITCH_LIMIT {
        -PITCH_LIMIT as int
    } else if sum > PITCH_LIMIT {
        PITCH_LIMIT as int
    } else {
        sum
    }
}

/// Apply a mouse delta to the camera pitch, clamping so the view stays short
/// of vertical in both directions.
pub fn calculate_pitch_rotation(current_pitch: i64, pitch_delta: i64) -> (new_pitch: i64)
    requires
        -PITCH_LIMIT <= current_pitch <= PITCH_LIMIT,
        -MAX_CAMERA_DELTA <= pitch_delta <= MAX_CAMERA_DELTA,
    ensures
        new_pitch == clamped_pitch(current_pitch as int, pitch_delta as int),
        -PITCH_LIMIT <= new_pitch <= PITCH_LIMIT,
{
    let sum = current_pitch + pitch_delta;
    if sum < -PITCH_LIMIT {
        -PITCH_LIMIT
    } else if sum > PITCH_LIMIT {
        PITCH_LIMIT
    } else {
        sum
    }
}

/// While the cursor is locked, the frame's pitch delta turns the camera,
/// clamped short of vertical; while it is free, the camera holds still.
pub fn camera_pitch_control(camera_pitch: &mut i64, input: &Input)
    requires
        -PITCH_LIMIT <= *old(camera_pitch) <= PITCH_LIMIT,
        input.wf(),
    ensures
        *final(camera_pitch) == (if input.cursor_lock_state == CursorLockState::Free {
            *old(camera_pitch) as int
        } else {
            clamped_pitch(*old(camera_pitch) as int, input.camera_delta.y as int)
        }),
        -PITCH_LIMIT <= *final(camera_pitch) <= PITCH_LIMIT,
{
    if input.cursor_lock_state() != CursorLockState::Free {
        *camera_pitch = calculate_pitch_rotation(*camera_pitch, input.camera_pitch_delta());
    }
}

/// While the cursor is locked, the frame's yaw delta turns the player body
/// about the vertical axis; while it is free, the body holds still.
pub fn player_yaw_control(player_yaw: &mut i64, input: &Input)
    requires
        is_normalized(*old(player_yaw) as int),
        input.wf(),
    ensures
        *final(player_yaw) == (if input.cursor_lock_state == CursorLockState::Free {
            *old(player_yaw)
        } else {
            wrapped(*old(player_yaw) + input.camera_delta.x) as i64
        }),
        is_normalized(*final(player_yaw) as int),
{
    if input.cursor_lock_state() != CursorLockState::Free {
        *player_yaw = wrap_angle(*player_yaw + input.camera_yaw_delta());
    }
}

/// A frame's movement request for the character controller: walk `distance`
/// micrometers along the horizontal `heading`.
#[derive(Clone, Copy, PartialEq, Eq, Structural, Debug)]
pub struct PlayerTranslation {
    /// Normalized heading angle, in microradians.
    pub heading: i64,
    /// Distance to cover this frame, in micrometers.
    pub distance: i64,
}

/// The movement the frame calls for: none without a translation angle,
/// otherwise the player's yaw turned by that angle, covered at walking speed
/// for the frame's duration.
pub open spec fn player_translation(player_yaw: int, input: Input, delta_micros: u64) -> Option<
    PlayerTranslation,
> {
    match input.translation_angle {
        None => None,
        Some(angle) => Some(
            PlayerTranslation {
                heading: wrapped(player_yaw + angle) as i64,
                distance: (PLAYER_SPEED * delta_micros as int) as i64,
            },
        ),
    }
}

/// Compute the frame's movement request from the player's yaw, the input
/// state, and the frame duration.
pub fn calculate_player_translation(player_yaw: i64, input: &Input, delta_micros: u64) -> (t:
    Option<PlayerTranslation>)
    requires
        is_normalized(player_yaw as int),
        input.wf(),
        delta_micros <= MAX_FRAME_MICROS,
    ensures
        t == player_translation(player_yaw as int, *input, delta_micros),
        t matches Some(pt) ==> is_normalized(pt.heading as int),
{
    match input.translation_angle() {
        None => None,
        Some(angle) => {
            let heading = wrap_angle(player_yaw + angle);
            let distance = PLAYER_SPEED * (delta_micros as i64);
            Some(PlayerTranslation { heading, distance })
        },
    }
}

/// While the cursor is locked, replace the character controller's movement
/// request with this frame's; while it is free, leave it as it stands.
pub fn player_movement(
    controller_translation: &mut Option<PlayerTranslation>,
    player_yaw: i64,
    input: &Input,
    delta_micros: u64,
)
    requires
        is_normalized(player_yaw as int),
        input.wf(),
        delta_micros <= MAX_FRAME_MICROS,
    ensures
        *final(controller_translation) == (if input.cursor_lock_state == CursorLockState::Free {
            *old(controller_translation)
        } else {
            player_translation(player_yaw as int, *input, delta_micros)
        }),
{
    if input.cursor_lock_state() != CursorLockState::Free {
        *controller_translation = calculate_player_translation(player_yaw, input, delta_micros);
    }
}

} // verus!
