//! The two player slots of a match.

use vstd::prelude::*;

verus! {

/// Identity of a fighter. It selects the frame tables, the attack strength
/// and the spawn point of the fighter.
#[derive(Clone, Copy, Debug, PartialEq, Eq, Structural, Hash)]
pub enum Player {
    One,
    Two,
}

impl Player {
    /// Position of the player in per-player tables.
    pub open spec fn index_spec(&self) -> usize {
        match self {
            Player::One => 0,
            Player::Two => 1,
        }
    }

    /// The other player.
    pub open spec fn opponent_spec(&self) -> Player {
        match self {
            Player::One => Player::Two,
            Player::Two => Player::One,
        }
    }

    /// Position of the player in per-player tables: 0 for player one, 1 for
    /// player two.
    #[verifier::when_used_as_spec(index_spec)]
    pub fn index(&self) -> (i: usize)
        ensures
            i == self.index_spec(),
            i < 2,
    {
        match self {
            Player::One => 0,
            Player::Two => 1,
        }
    }

    /// The player this one fights against.
    #[verifier::when_used_as_spec(opponent_spec)]
    pub fn opponent(&self) -> (other: Player)
        ensures
            other == self.opponent_spec(),
            other != *self,
    {
        match self {
            Player::One => Player::Two,
            Player::Two => Player::One,
        }
    }
}

/// Each player is the opponent of their opponent, and the two never share a
/// table index.
pub proof fn theorem_opponent_involution(p: Player)
    ensures
        p.opponent().opponent() == p,
        p.opponent().index() != p.index(),
        p.opponent().index() + p.index() == 1,
{
}

} // verus!
