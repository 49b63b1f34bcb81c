//! The top-level game state machine and the player-count mode.

use vstd::prelude::*;

verus! {

/// The four top-level states gating which systems run each tick.
///
/// `StartMenu` is the initial state. Transitions: `StartMenu -> Playing` on
/// start input; `Playing <-> Paused` on pause and resume input;
/// `Playing -> GameOver` when every player's lives are exhausted or the
/// Home is destroyed; `GameOver -> StartMenu` when the fixed-duration
/// game-over effect completes or on explicit restart input. Any other
/// requested transition is ignored, not an error.
#[derive(Debug, Clone, Copy, PartialEq, Eq, Structural)]
pub enum AppState {
    StartMenu,
    Playing,
    Paused,
    GameOver,
}

/// Whether one or two players take part in the battle. Switched only on the
/// start menu.
#[derive(Debug, Clone, Copy, PartialEq, Eq, Structural)]
pub enum MultiplayerMode {
    SinglePlayer,
    TwoPlayers,
}

/// Debounced menu and session inputs consumed by the state machine; the
/// input collaborator maps raw device state to these.
#[derive(Debug, Clone, Copy, PartialEq, Eq, Structural)]
pub enum MenuInput {
    Start,
    Pause,
    Resume,
    Restart,
}

} // verus!
