//! Slots: the places on the table where a card can lie.

use vstd::prelude::*;
use crate::card::{Card, SelectedCard};
use crate::entity::EntityId;

verus! {

/// Where on the table a slot belongs.
#[derive(Clone, Copy, PartialEq, Eq, Structural, Debug)]
pub enum SlotType {
    Hand,
    Battlefield,
    Deck,
    Anywhere,
}

/// A place for one card. It is empty or holds exactly one card.
#[derive(Clone, Copy, PartialEq, Eq, Structural, Debug)]
pub struct Slot {
    slot_type: SlotType,
    slotted_entity: Option<EntityId>,
}

/// The slot that the dragged card would drop into, if any.
#[derive(Clone, Copy, PartialEq, Eq, Structural, Debug)]
pub struct HoveredSlot(pub Option<EntityId>);

/// A slot and how far it lies from the point under the mouse.
///
/// The distance is given as a key: of two slots, the one with the smaller key
/// is the nearer. The bit pattern of a distance held as a non-negative `f32`
/// is such a key, and it is the one that `Slot::REACH` is written in.
#[derive(Clone, Copy, PartialEq, Eq, Structural, Debug)]
pub struct SlotDistance {
    pub slot: EntityId,
    pub distance: u32,
}

impl Default for Slot {
    /// An empty slot that belongs anywhere.
    fn default() -> (r: Self)
        ensures
            r.kind() == SlotType::Anywhere,
            r.occupant().is_none(),
    {
        Self { slot_type: SlotType::Anywhere, slotted_entity: None }
    }
}

impl Default for HoveredSlot {
    /// No slot is hovered.
    fn default() -> (r: Self)
        ensures
            r == HoveredSlot(None),
    {
        HoveredSlot(None)
    }
}

impl Slot {
    /// Half a unit of length, as a distance key: the bit pattern of `0.5`.
    pub const REACH: u32 = 0x3F00_0000;

    /// The kind of the slot.
    pub closed spec fn kind(&self) -> SlotType {
        self.slot_type
    }

    /// The card lying in the slot, if any.
    pub closed spec fn occupant(&self) -> Option<EntityId> {
        self.slotted_entity
    }

    /// A slot is no more than its kind and its occupant.
    pub proof fn same_parts_same_slot(self, other: Slot)
        requires
            self.kind() == other.kind(),
            self.occupant() == other.occupant(),
        ensures
            self == other,
    {
    }

    /// A slot of the given kind, empty or with the given card in it.
    pub fn new(slot_type: SlotType, slotted_entity: Option<EntityId>) -> (r: Self)
        ensures
            r.kind() == slot_type,
            r.occupant() == slotted_entity,
    {
        Self { slot_type, slotted_entity }
    }

    /// The kind of the slot.
    pub fn get_type(&self) -> (r: SlotType)
        ensures
            r == self.kind(),
    {
        self.slot_type
    }

    /// The card lying in the slot, if any.
    pub fn slotted_entity(&self) -> (r: Option<EntityId>)
        ensures
            r == self.occupant(),
    {
        self.slotted_entity
    }

    /// Whether a card lies in the slot.
    pub fn has_slot(&self) -> (r: bool)
        ensures
            r == self.occupant().is_some(),
    {
        match self.slotted_entity {
            None => false,
            _ => true,
        }
    }

    /// Empties the slot.
    pub fn remove_slotted_entity(&mut self)
        ensures
            final(self).occupant().is_none(),
            final(self).kind() == old(self).kind(),
    {
        self.slotted_entity = None;
    }

    /// Puts the card `card_entity` into the slot if the slot is empty, and
    /// says whether it did. A slot that holds a card stays as it is, also
    /// where the card it holds is `card_entity` itself.
    pub fn try_slotting_card(&mut self, card_entity: EntityId, card: &Card) -> (r: bool)
        ensures
            r == old(self).occupant().is_none(),
            final(self).kind() == old(self).kind(),
            final(self).occupant() == (if r {
                Some(card_entity)
            } else {
                old(self).occupant()
            }),
    {
        match self.slotted_entity {
            None => {
                self.slotted_entity = Some(card_entity);
                true
            },
            _ => false,
        }
    }

    /// Whether the slot's own marker is drawn.
    ///
    /// It is drawn while the slot is empty, unless a card is held and
    /// `hovered`, as `hover_slot` left it, is this very slot.
    pub fn is_visible(
        &self,
        slot_entity: EntityId,
        selected: SelectedCard,
        hovered: &HoveredSlot,
    ) -> (r: bool)
        ensures
            r == (self.occupant().is_none() && !(selected is Held && hovered.0 == Some(
                slot_entity,
            ))),
    {
        if self.has_slot() {
            return false;
        }
        match (selected, hovered.0) {
            (SelectedCard::Held(_), Some(target)) => target != slot_entity,
            _ => true,
        }
    }
}

/// Whether some slot lies within reach of the point under the mouse.
pub open spec fn in_reach(slots: Seq<SlotDistance>) -> bool {
    exists|j: int| 0 <= j < slots.len() && (#[trigger] slots[j]).distance < Slot::REACH
}

/// Whether the slot at `i` is the one that a dragged card aims at: it lies
/// within reach, no slot is nearer, and of the slots as near it comes first.
pub open spec fn is_nearest(slots: Seq<SlotDistance>, i: int) -> bool {
    &&& 0 <= i < slots.len()
    &&& slots[i].distance < Slot::REACH
    &&& forall|j: int| 0 <= j < slots.len() ==> slots[i].distance <= (#[trigger] slots[j]).distance
    &&& forall|j: int| 0 <= j < i ==> slots[i].distance < (#[trigger] slots[j]).distance
}

/// The slot that a dragged card aims at, if one lies within reach.
pub open spec fn nearest_slot(slots: Seq<SlotDistance>) -> Option<EntityId> {
    if in_reach(slots) {
        Some(slots[choose|i: int| is_nearest(slots, i)].slot)
    } else {
        None
    }
}

/// At most one slot is the nearest.
pub proof fn nearest_is_unique(slots: Seq<SlotDistance>, i: int, j: int)
    requires
        is_nearest(slots, i),
        is_nearest(slots, j),
    ensures
        i == j,
{
    if i < j {
        assert(slots[j].distance < slots[i].distance);
    } else if j < i {
        assert(slots[i].distance < slots[j].distance);
    }
}

impl Slot {
    /// Finds the slot that a dragged card aims at, by its place in `slots`.
    ///
    /// It is the nearest of the slots that lie less than `Slot::REACH` away,
    /// the first of them where several are equally near. Where no slot lies
    /// that near, there is none.
    pub fn get_nearest_slot(slots: &Vec<SlotDistance>) -> (r: Option<usize>)
        ensures
            match r {
                Some(i) => is_nearest(slots@, i as int) && nearest_slot(slots@) == Some(
                    slots@[i as int].slot,
                ),
                None => !in_reach(slots@) && nearest_slot(slots@).is_none(),
            },
    {
        let mut found: Option<usize> = None;
        let mut max_distance: u32 = Slot::REACH;
        let mut k: usize = 0;
        while k < slots.len()
            invariant
                k <= slots.len(),
                max_distance <= Slot::REACH,
                forall|j: int| 0 <= j < k ==> max_distance <= (#[trigger] slots@[j]).distance,
                match found {
                    Some(i) => {
                        &&& i < k
                        &&& slots@[i as int].distance == max_distance
                        &&& max_distance < Slot::REACH
                        &&& forall|j: int|
                            0 <= j < i ==> max_distance < (#[trigger] slots@[j]).distance
                    },
                    None => max_distance == Slot::REACH,
                },
            decreases slots.len() - k,
        {
            if slots[k].distance < max_distance {
                found = Some(k);
                max_distance = slots[k].distance;
            }
            k += 1;
        }
        proof {
            if let Some(i) = found {
                assert(is_nearest(slots@, i as int));
                nearest_is_unique(slots@, i as int, choose|n: int| is_nearest(slots@, n));
            }
        }
        found
    }
}

/// The slot that is hovered once a frame's mouse position is known.
pub open spec fn hover_target(
    before: HoveredSlot,
    selected: SelectedCard,
    slots: Option<Seq<SlotDistance>>,
) -> HoveredSlot {
    match selected {
        SelectedCard::Nothing => before,
        SelectedCard::Held(_) => match slots {
            Some(slots) => HoveredSlot(nearest_slot(slots)),
            None => HoveredSlot(None),
        },
    }
}

/// Brings the hovered slot up to date with the mouse.
///
/// `slots` is `None` where the mouse points at nothing on the table, and else
/// holds every slot with its distance from the point under the mouse. While a
/// card is held, the hovered slot becomes the slot that the card aims at, or
/// none. While no card is held, the hovered slot stays as it is.
pub fn hover_slot(
    hovered: &mut HoveredSlot,
    selected: SelectedCard,
    slots: Option<&Vec<SlotDistance>>,
)
    ensures
        *final(hovered) == hover_target(
            *old(hovered),
            selected,
            match slots {
                Some(slots) => Some(slots@),
                None => None,
            },
        ),
{
    if let SelectedCard::Held(_) = selected {
        if let Some(slots) = slots {
            match Slot::get_nearest_slot(slots) {
                Some(i) => {
                    hovered.0 = Some(slots[i].slot);
                },
                None => {
                    hovered.0 = None;
                },
            }
        } else {
            hovered.0 = None;
        }
    }
}

} // verus!
