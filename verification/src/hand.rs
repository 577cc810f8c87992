//! The hand: the row of slots in front of a player.

use vstd::prelude::*;
use crate::entity::EntityId;
use crate::player::Player;
use crate::slot::{Slot, SlotType};

verus! {

/// The slots of one player's hand, in the order in which they joined it.
#[derive(Debug)]
pub struct Hand {
    slots: Vec<EntityId>,
}

impl View for Hand {
    type V = Seq<EntityId>;

    closed spec fn view(&self) -> Seq<EntityId> {
        self.slots@
    }
}

impl Hand {
    /// A hand without slots.
    pub fn new() -> (r: Self)
        ensures
            r@ == Seq::<EntityId>::empty(),
    {
        Hand { slots: Vec::new() }
    }

    /// The slots of the hand, from the first that joined to the last.
    pub fn slots(&self) -> (r: &Vec<EntityId>)
        ensures
            r@ == self@,
    {
        &self.slots
    }

    /// Adds `entity` at the end of the hand. A hand never refuses.
    pub fn try_put_card_into_hand(&mut self, entity: EntityId) -> (r: bool)
        ensures
            r,
            final(self)@ == old(self)@.push(entity),
    {
        self.slots.push(entity);
        true
    }
}

/// Whether a new slot joins a hand: it is a hand slot, and it belongs to the
/// player whose hand it is.
pub open spec fn joins_hand(hand_player: Player, slot: Slot, slot_player: Player) -> bool {
    hand_player@.player_id == slot_player@.player_id && slot.kind() == SlotType::Hand
}

/// A slot has come onto the table: the hand takes it in if it is one of its
/// own, and says whether it did.
pub fn on_spawn_hand(
    hand: &mut Hand,
    hand_player: &Player,
    slot_entity: EntityId,
    slot: &Slot,
    slot_player: &Player,
) -> (r: bool)
    ensures
        r == joins_hand(*hand_player, *slot, *slot_player),
        final(hand)@ == (if r {
            old(hand)@.push(slot_entity)
        } else {
            old(hand)@
        }),
{
    if hand_player.id() == slot_player.id() {
        match slot.get_type() {
            SlotType::Hand => {
                hand.slots.push(slot_entity);
                true
            },
            _ => false,
        }
    } else {
        false
    }
}

} // verus!
