//! The record of a card player.

use vstd::prelude::*;

verus! {

/// How often a player has won, lost and tied.
pub struct PlayerState {
    pub wins: u32,
    pub losses: u32,
    pub pushes: u32,
}

} // verus!
