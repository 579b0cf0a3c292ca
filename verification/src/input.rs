//! Input state: the cursor-lock toggle, the scaled mouse-look delta, and the
//! translation angle derived from the four movement keys.
//!
//! The engine polls the devices each frame and hands this module plain
//! values: whether the right mouse button was just pressed, the accumulated
//! mouse motion in counts, and which movement keys are held. Every update of
//! the shared [`Input`] state is stated and proved here.

use vstd::prelude::*;

use crate::angle::EIGHTH_TURN;
use crate::angle::HALF_TURN;
use crate::angle::QUARTER_TURN;

verus! {

/// Look sensitivity: microradians of camera rotation per mouse count.
/// The turn is opposite to the motion, hence the negative sign.
pub const MOUSE_SENSITIVITY: i64 = -500;

/// The most mouse counts a single frame's accumulated motion may carry on
/// either axis. Real devices stay far below this.
pub const MAX_MOUSE_MOTION: i64 = 1_000_000;

/// The largest camera delta a frame can produce on either axis.
pub const MAX_CAMERA_DELTA: i64 = 500_000_000;

/// Whether the OS cursor is confined to the window and hidden.
#[derive(Clone, Copy, PartialEq, Eq, Structural, Debug)]
pub enum CursorLockState {
    Free,
    Locked,
}

impl Default for CursorLockState {
    /// The cursor starts out free.
    fn default() -> (s: Self)
        ensures
            s == CursorLockState::Free,
    {
        CursorLockState::Free
    }
}

/// What a window must be told to realize a cursor-lock state: whether to
/// confine the cursor, and whether to show it.
pub struct CursorSettings {
    pub confined: bool,
    pub visible: bool,
}

impl CursorLockState {
    /// The opposite state.
    pub open spec fn toggled(self) -> Self {
        match self {
            CursorLockState::Free => CursorLockState::Locked,
            CursorLockState::Locked => CursorLockState::Free,
        }
    }

    /// Switch between `Free` and `Locked`.
    pub fn toggle(&mut self)
        ensures
            *final(self) == old(self).toggled(),
    {
        *self = match *self {
            Self::Free => Self::Locked,
            Self::Locked => Self::Free,
        };
    }

    /// The window settings this state calls for: a locked cursor is confined
    /// and hidden, a free one is unconfined and visible.
    pub fn window_settings(self) -> (w: CursorSettings)
        ensures
            w.confined == (self == CursorLockState::Locked),
            w.visible == (self == CursorLockState::Free),
    {
        match self {
            Self::Locked => CursorSettings { confined: true, visible: false },
            Self::Free => CursorSettings { confined: false, visible: true },
        }
    }

    /// Toggling twice restores the state.
    pub proof fn lemma_toggle_involution(self)
        ensures
            self.toggled().toggled() == self,
    {
    }
}

/// The mouse-look delta of one frame, in microradians per axis: `x` turns the
/// yaw, `y` the pitch.
#[derive(Clone, Copy, PartialEq, Eq, Structural, Debug)]
pub struct CameraDelta {
    pub x: i64,
    pub y: i64,
}

/// Which of the four movement keys are held this frame.
#[derive(Clone, Copy, PartialEq, Eq, Structural, Debug)]
pub struct KeysPressed {
    pub w: bool,
    pub s: bool,
    pub a: bool,
    pub d: bool,
}

/// The first component of the direction vector the held keys add up to.
pub open spec fn keys_vector_x(keys: KeysPressed) -> int {
    (if keys.a {
        1int
    } else {
        0int
    }) - (if keys.d {
        1int
    } else {
        0int
    })
}

/// The second component of the direction vector the held keys add up to.
pub open spec fn keys_vector_y(keys: KeysPressed) -> int {
    (if keys.w {
        1int
    } else {
        0int
    }) - (if keys.s {
        1int
    } else {
        0int
    })
}

/// The planar angle of the direction `(x, y)`, measured from the `+y` axis
/// toward the `+x` axis and normalized to `(-HALF_TURN, HALF_TURN]`. Only
/// meaningful when `(x, y)` is not the zero vector; `x` and `y` range over
/// `{-1, 0, 1}`, so the angle is a multiple of an eighth turn.
pub open spec fn direction_angle(x: int, y: int) -> int {
    if x == 0 && y >= 0 {
        0
    } else if x > 0 && y > 0 {
        EIGHTH_TURN as int
    } else if x > 0 && y == 0 {
        QUARTER_TURN as int
    } else if x > 0 && y < 0 {
        3 * EIGHTH_TURN
    } else if x == 0 && y < 0 {
        HALF_TURN as int
    } else if x < 0 && y < 0 {
        -3 * EIGHTH_TURN
    } else if x < 0 && y == 0 {
        -(QUARTER_TURN as int)
    } else {
        -(EIGHTH_TURN as int)
    }
}

/// The translation angle the held keys call for: `None` when the keys cancel
/// out or none is held, otherwise the angle of their direction vector.
pub open spec fn translation_angle_of_keys(keys: KeysPressed) -> Option<i64> {
    if keys_vector_x(keys) == 0 && keys_vector_y(keys) == 0 {
        None
    } else {
        Some(direction_angle(keys_vector_x(keys), keys_vector_y(keys)) as i64)
    }
}

/// The per-frame input state the systems share.
pub struct Input {
    pub camera_delta: CameraDelta,
    pub cursor_lock_state: CursorLockState,
    pub translation_angle: Option<i64>,
}

impl Input {
    /// Bounds every frame update keeps: the camera delta stays within what a
    /// frame of mouse motion can produce, and the translation angle is one of
    /// the eight key directions.
    pub open spec fn wf(self) -> bool {
        &&& -MAX_CAMERA_DELTA <= self.camera_delta.x <= MAX_CAMERA_DELTA
        &&& -MAX_CAMERA_DELTA <= self.camera_delta.y <= MAX_CAMERA_DELTA
        &&& match self.translation_angle {
            Some(a) => -3 * EIGHTH_TURN <= a <= HALF_TURN,
            None => true,
        }
    }

    /// The pitch part of the mouse-look delta, in microradians.
    pub fn camera_pitch_delta(&self) -> (d: i64)
        ensures
            d == self.camera_delta.y,
    {
        self.camera_delta.y
    }

    /// The yaw part of the mouse-look delta, in microradians.
    pub fn camera_yaw_delta(&self) -> (d: i64)
        ensures
            d == self.camera_delta.x,
    {
        self.camera_delta.x
    }

    /// The current cursor-lock state.
    pub fn cursor_lock_state(&self) -> (s: CursorLockState)
        ensures
            s == self.cursor_lock_state,
    {
        self.cursor_lock_state
    }

    /// The translation angle of this frame, if any movement key is in effect.
    pub fn translation_angle(&self) -> (a: Option<i64>)
        ensures
            a == self.translation_angle,
    {
        self.translation_angle
    }
}

impl Default for Input {
    /// No motion, a free cursor, and no translation angle.
    fn default() -> (input: Self)
        ensures
            input.camera_delta == (CameraDelta { x: 0, y: 0 }),
            input.cursor_lock_state == CursorLockState::Free,
            input.translation_angle is None,
            input.wf(),
    {
        Input {
            camera_delta: CameraDelta { x: 0, y: 0 },
            cursor_lock_state: CursorLockState::Free,
            translation_angle: None,
        }
    }
}

/// A press of the right mouse button toggles the cursor lock; nothing else
/// changes.
pub fn update_cursor_lock_state(input: &mut Input, right_button_just_pressed: bool)
    ensures
        final(input).cursor_lock_state == (if right_button_just_pressed {
            old(input).cursor_lock_state.toggled()
        } else {
            old(input).cursor_lock_state
        }),
        final(input).camera_delta == old(input).camera_delta,
        final(input).translation_angle == old(input).translation_angle,
{
    if right_button_just_pressed {
        input.cursor_lock_state.toggle();
    }
}

/// Scale the frame's accumulated mouse motion by the look sensitivity and
/// store it as the camera delta; nothing else changes.
pub fn camera_delta(input: &mut Input, motion_x: i64, motion_y: i64)
    requires
        -MAX_MOUSE_MOTION <= motion_x <= MAX_MOUSE_MOTION,
        -MAX_MOUSE_MOTION <= motion_y <= MAX_MOUSE_MOTION,
    ensures
        final(input).camera_delta.x == motion_x * MOUSE_SENSITIVITY,
        final(input).camera_delta.y == motion_y * MOUSE_SENSITIVITY,
        final(input).cursor_lock_state == old(input).cursor_lock_state,
        final(input).translation_angle == old(input).translation_angle,
        -MAX_CAMERA_DELTA <= final(input).camera_delta.x <= MAX_CAMERA_DELTA,
        -MAX_CAMERA_DELTA <= final(input).camera_delta.y <= MAX_CAMERA_DELTA,
{
    proof {
        assert(-MAX_CAMERA_DELTA <= motion_x * MOUSE_SENSITIVITY <= MAX_CAMERA_DELTA)
            by (nonlinear_arith)
            requires
                -MAX_MOUSE_MOTION <= motion_x <= MAX_MOUSE_MOTION,
        ;
        assert(-MAX_CAMERA_DELTA <= motion_y * MOUSE_SENSITIVITY <= MAX_CAMERA_DELTA)
            by (nonlinear_arith)
            requires
                -MAX_MOUSE_MOTION <= motion_y <= MAX_MOUSE_MOTION,
        ;
    }
    input.camera_delta = CameraDelta { x: motion_x * MOUSE_SENSITIVITY, y: motion_y * MOUSE_SENSITIVITY };
}

/// The direction vector the held keys add up to: `w` and `s` pull along
/// `+y` and `-y`, `a` and `d` along `+x` and `-x`. Opposite keys cancel.
pub fn get_keys_vector(keys: KeysPressed) -> (v: (i64, i64))
    ensures
        v.0 == keys_vector_x(keys),
        v.1 == keys_vector_y(keys),
{
    let x: i64 = (if keys.a {
        1i64
    } else {
        0i64
    }) - (if keys.d {
        1i64
    } else {
        0i64
    });
    let y: i64 = (if keys.w {
        1i64
    } else {
        0i64
    }) - (if keys.s {
        1i64
    } else {
        0i64
    });
    (x, y)
}

/// Derive the frame's translation angle from the held keys and store it;
/// nothing else changes.
pub fn translation_angle(input: &mut Input, keys: KeysPressed)
    ensures
        final(input).translation_angle == translation_angle_of_keys(keys),
        final(input).camera_delta == old(input).camera_delta,
        final(input).cursor_lock_state == old(input).cursor_lock_state,
        match final(input).translation_angle {
            Some(a) => -3 * EIGHTH_TURN <= a <= HALF_TURN,
            None => true,
        },
{
    let v = get_keys_vector(keys);
    if v.0 == 0 && v.1 == 0 {
        input.translation_angle = None;
    } else {
        let angle: i64 = if v.0 == 0 && v.1 >= 0 {
            0
        } else if v.0 > 0 && v.1 > 0 {
            EIGHTH_TURN
        } else if v.0 > 0 && v.1 == 0 {
            QUARTER_TURN
        } else if v.0 > 0 && v.1 < 0 {
            3 * EIGHTH_TURN
        } else if v.0 == 0 && v.1 < 0 {
            HALF_TURN
        } else if v.0 < 0 && v.1 < 0 {
            -3 * EIGHTH_TURN
        } else if v.0 < 0 && v.1 == 0 {
            -QUARTER_TURN
        } else {
            -EIGHTH_TURN
        };
        input.translation_angle = Some(angle);
    }
}

} // verus!
