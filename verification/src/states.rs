//! The top-level game state machine, owned and mutated only by the round
//! manager's transition logic.

use vstd::prelude::*;

verus! {

/// Exactly one state is active at any time. `InGame` is initial;
/// `GameOver` is terminal until a restart.
#[derive(Clone, Copy, PartialEq, Eq, Structural, Debug)]
pub enum GameState {
    InGame,
    CardSelection,
    GameOver,
}

} // verus!
