//! A deterministic, per-player state-transition engine for a multiplayer
//! snake game, with an attached points ledger and high-score tracker.
//! Every operation is a pure transition of the whole application state;
//! the host that persists the state, sequences operations and resolves
//! caller identities lives outside this crate.

use vstd::prelude::*;

pub mod contract;
pub mod state;

use crate::state::Direction;

verus! {

/// Marker type for the application's interface: the host binds it to
/// [`Operation`] as the transition alphabet and to the read-only query
/// surface.
pub struct JeteeahAbi;

/// The transition function's input alphabet. Player-scoped operations carry
/// an implicit caller identity, resolved by the host and handed to the
/// dispatcher as an explicit value.
#[derive(Clone, Copy, Debug, PartialEq, Eq, Structural)]
pub enum Operation {
    Increment { value: u64 },
    StartGame,
    MoveSnake { direction: Direction },
    EatFood,
    EndGame,
    ResetGame,
    AddPoints { amount: u64 },
    RedeemPoints { amount: u64 },
    SetGameParameters { width: i32, height: i32 },
    UpdateFoodSpawnRate { rate: u64 },
    ResetLeaderboard,
    PauseGame,
    ResumeGame,
}

} // verus!
