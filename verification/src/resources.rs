//! Match-wide bookkeeping: the score sheet and the pending card draft.

use vstd::prelude::*;

use crate::cards::Card;
use crate::cards::pool_ids;

verus! {

/// Score tracking for the match: scores only grow during a match and are
/// reset to zero only on a full-match restart.
#[derive(Clone, Copy, PartialEq, Eq, Structural, Debug)]
pub struct RoundManager {
    pub p1_score: u32,
    pub p2_score: u32,
    pub rounds_to_win: u32,
}

impl Default for RoundManager {
    /// A fresh match: no points yet, first to three rounds wins.
    fn default() -> (r: RoundManager)
        ensures
            r.p1_score == 0,
            r.p2_score == 0,
            r.rounds_to_win == 3,
    {
        RoundManager { p1_score: 0, p2_score: 0, rounds_to_win: 3 }
    }
}

/// The pending draft: set when a round ends without ending the match,
/// cleared when the losing player picks a card. Choices are only offered
/// while a loser is set.
pub struct CardSelection {
    pub loser: Option<u64>,
    pub choices: Vec<Card>,
}

impl CardSelection {
    pub open spec fn wf(self) -> bool {
        &&& self.choices@.len() <= 3
        &&& (self.loser is None ==> self.choices@.len() == 0)
        &&& (self.loser matches Some(l) ==> l == 1 || l == 2)
        &&& forall|i: int|
            0 <= i < self.choices@.len() ==> pool_ids().contains((#[trigger] self.choices@[i]).id)
    }

    /// An empty selection: no loser, no offered choices.
    pub fn new() -> (r: CardSelection)
        ensures
            r.loser is None,
            r.choices@.len() == 0,
            r.wf(),
    {
        CardSelection { loser: None, choices: Vec::new() }
    }
}

} // verus!
