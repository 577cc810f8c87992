//! Handles for the objects on the table.

use vstd::prelude::*;

verus! {

/// Names one object of the game: a card, a slot, a player.
///
/// The number is whatever the front end uses to tell its objects apart; two
/// handles name the same object exactly when their numbers are equal.
#[derive(Clone, Copy, PartialEq, Eq, Structural, Debug, Hash)]
pub struct EntityId {
    pub bits: u64,
}

impl EntityId {
    /// The handle with the given number.
    pub fn from_bits(bits: u64) -> (r: Self)
        ensures
            r.bits == bits,
    {
        EntityId { bits }
    }

    /// The number behind the handle.
    pub fn to_bits(self) -> (r: u64)
        ensures
            r == self.bits,
    {
        self.bits
    }
}

} // verus!
