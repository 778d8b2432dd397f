//! Kill notifications: produced by the combat resolver and fully drained
//! by the round manager within the same tick.

use vstd::prelude::*;

verus! {

/// One player's health reached zero from a projectile hit: `winner` fired
/// the projectile, `loser` was hit.
#[derive(Clone, Copy, PartialEq, Eq, Structural, Debug)]
pub struct PlayerKilled {
    pub winner: u64,
    pub loser: u64,
}

} // verus!
