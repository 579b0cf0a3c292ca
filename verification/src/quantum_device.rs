//! The quantum device: a one-shot countdown with a record of histories.
//!
//! The engine owns the running timer; the model keeps the duration it was
//! wound to. No kind of action is defined yet, so every history is empty.

use vstd::prelude::*;

verus! {

/// A record of actions: for each one, the moment it happened, in
/// microseconds since the history began. No kind of action is defined yet,
/// so nothing ever records one and every history stays empty.
pub struct History {
    pub actions: Vec<u64>,
}

impl History {
    /// A history with no actions.
    pub fn new() -> (h: Self)
        ensures
            h.actions@.len() == 0,
    {
        Self { actions: Vec::new() }
    }
}

/// The device: a one-shot countdown, the histories already closed, and the
/// one being written.
pub struct QuantumDevice {
    /// How long the countdown was wound to run, in microseconds.
    pub timer_micros: u64,
    pub histories: Vec<History>,
    pub current_history: Option<History>,
}

impl QuantumDevice {
    /// A fresh device: the countdown wound to `duration_micros`, no closed
    /// history, and an empty current one.
    pub fn new(duration_micros: u64) -> (d: Self)
        ensures
            d.timer_micros == duration_micros,
            d.histories@.len() == 0,
            d.current_history matches Some(h) && h.actions@.len() == 0,
    {
        Self {
            timer_micros: duration_micros,
            histories: Vec::new(),
            current_history: Some(History::new()),
        }
    }
}

} // verus!
