//! The two score counters.

use vstd::prelude::*;

verus! {

/// Whose counter a score belongs to.
#[derive(Clone, Copy, Debug, PartialEq, Eq, Structural)]
pub enum ScoreOwner {
    Player,
    Enemy,
}

/// What a [`Scoreboard`] stands for in contracts.
pub ghost struct Score {
    pub player: nat,
    pub enemy: nat,
}

/// The goals scored so far by each side.
#[derive(Clone, Copy, Debug, PartialEq, Eq, Structural)]
pub struct Scoreboard {
    pub player_score: usize,
    pub enemy_score: usize,
}

impl View for Scoreboard {
    type V = Score;

    open spec fn view(&self) -> Score {
        Score { player: self.player_score as nat, enemy: self.enemy_score as nat }
    }
}

/// A counter after one more goal: it stops at `usize::MAX`.
pub open spec fn incremented(count: nat) -> nat {
    if count < usize::MAX {
        count + 1
    } else {
        count
    }
}

impl Score {
    /// The score after `scorer` has scored once more.
    pub open spec fn credited(self, scorer: ScoreOwner) -> Score {
        match scorer {
            ScoreOwner::Player => Score { player: incremented(self.player), enemy: self.enemy },
            ScoreOwner::Enemy => Score { player: self.player, enemy: incremented(self.enemy) },
        }
    }

    /// The counter of `owner`.
    pub open spec fn of(self, owner: ScoreOwner) -> nat {
        match owner {
            ScoreOwner::Player => self.player,
            ScoreOwner::Enemy => self.enemy,
        }
    }
}

impl Scoreboard {
    /// A scoreboard on which nobody has scored.
    pub fn new() -> (s: Scoreboard)
        ensures
            s@ == (Score { player: 0, enemy: 0 }),
    {
        Scoreboard { player_score: 0, enemy_score: 0 }
    }

    /// Adds one goal to the counter of `scorer`.
    pub fn credit(&mut self, scorer: ScoreOwner)
        ensures
            final(self)@ == old(self)@.credited(scorer),
    {
        match scorer {
            ScoreOwner::Player => {
                if self.player_score < usize::MAX {
                    self.player_score = self.player_score + 1;
                }
            },
            ScoreOwner::Enemy => {
                if self.enemy_score < usize::MAX {
                    self.enemy_score = self.enemy_score + 1;
                }
            },
        }
    }

    /// The number that the score text of `owner` shows.
    pub fn score_of(&self, owner: ScoreOwner) -> (n: usize)
        ensures
            n == self@.of(owner),
    {
        match owner {
            ScoreOwner::Player => self.player_score,
            ScoreOwner::Enemy => self.enemy_score,
        }
    }
}

} // verus!
