//! The two-valued, match-local player identity and its peer lookup.

use vstd::prelude::*;

verus! {

/// A match-local role, not a global user identity. `flip` maps one role to
/// the other.
#[derive(Clone, Copy, Debug, PartialEq, Eq, Structural)]
pub enum Player {
    Player1,
    Player2,
}

impl Player {
    /// The peer lookup: each role maps to the other one.
    pub fn flip(&self) -> (r: Player)
        ensures
            r == self.spec_flip(),
    {
        match self {
            Player::Player1 => Player::Player2,
            Player::Player2 => Player::Player1,
        }
    }

    /// What `flip` returns.
    pub open spec fn spec_flip(self) -> Player {
        match self {
            Player::Player1 => Player::Player2,
            Player::Player2 => Player::Player1,
        }
    }

    /// Decodes a role from its numeric label; every value other than 1 is
    /// read as the second role.
    pub fn from_int(value: u8) -> (r: Player)
        ensures
            r == Player::spec_from_int(value),
    {
        match value {
            1 => Player::Player1,
            _ => Player::Player2,
        }
    }

    /// What `from_int` returns.
    pub open spec fn spec_from_int(value: u8) -> Player {
        if value == 1 {
            Player::Player1
        } else {
            Player::Player2
        }
    }

    /// The numeric role label used in protocol messages: 1 or 2.
    pub fn to_int(&self) -> (r: u8)
        ensures
            r == self.spec_to_int(),
    {
        match self {
            Player::Player1 => 1,
            Player::Player2 => 2,
        }
    }

    /// What `to_int` returns.
    pub open spec fn spec_to_int(self) -> u8 {
        match self {
            Player::Player1 => 1u8,
            Player::Player2 => 2u8,
        }
    }
}

/// Swaps the two array positions 0 and 1 that a pair of connections is held
/// in: 1 maps to 0 and every other index maps to 1.
pub fn flip_player(player: usize) -> (r: usize)
    ensures
        r == (if player == 1 { 0usize } else { 1usize }),
{
    if player == 1 {
        return 0;
    }
    1
}

/// Flipping a role twice returns to the same role, so alternating turns
/// visit both roles and only those.
pub proof fn lemma_flip_involution(p: Player)
    ensures
        p.spec_flip().spec_flip() == p,
        p.spec_flip() != p,
{
}

} // verus!
