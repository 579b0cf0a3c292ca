//! Core rules of a first-person game prototype: the cursor-lock state
//! machine, mouse-look camera angles, keyboard direction input, and the
//! player's per-frame movement request.
//!
//! The engine works in floating-point radians; this library states and proves
//! the same rules over fixed-point angles (microradians held in `i64`), so
//! every update is exact. The thin layer that talks to the engine converts at
//! the boundary.

pub mod angle;
pub mod input;
pub mod player;
pub mod quantum_device;
