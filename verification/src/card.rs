//! Cards, and the card that the player holds with the mouse.

use vstd::prelude::*;
use crate::entity::EntityId;
use crate::slot::{HoveredSlot, Slot};

verus! {

/// A number together with the most it can be.
#[derive(Debug)]
pub struct ISizeWithMax {
    pub current: isize,
    pub max: isize,
}

/// What sort of card this is.
#[derive(Clone, Copy, PartialEq, Eq, Structural, Debug, Hash)]
pub enum CardType {
    Creature,
}

/// The numbers printed on a card.
#[derive(Clone, Copy, Debug)]
pub struct CardStats {
    pub toughness: isize,
    pub power: isize,
    pub toughness_max: isize,
}

/// What is printed on a card: names, text, type and numbers.
#[derive(Clone, Debug)]
pub struct CardInfo {
    pub name: String,
    pub name_zh: String,
    pub desc: String,
    pub card_type: CardType,
    pub stats: CardStats,
}

/// A card's print as plain values.
pub struct CardInfoView {
    pub name: Seq<char>,
    pub name_zh: Seq<char>,
    pub desc: Seq<char>,
    pub card_type: CardType,
    pub stats: CardStats,
}

impl View for CardInfo {
    type V = CardInfoView;

    open spec fn view(&self) -> CardInfoView {
        CardInfoView {
            name: self.name@,
            name_zh: self.name_zh@,
            desc: self.desc@,
            card_type: self.card_type,
            stats: self.stats,
        }
    }
}

/// A card on the table.
pub struct Card {
    pub info: CardInfo,
    pub player_id: String,
    pub slotted_in_slot: Option<EntityId>,
}

/// A card as plain values.
pub struct CardView {
    pub info: CardInfoView,
    pub player_id: Seq<char>,
    pub slotted_in_slot: Option<EntityId>,
}

impl View for Card {
    type V = CardView;

    open spec fn view(&self) -> CardView {
        CardView {
            info: self.info@,
            player_id: self.player_id@,
            slotted_in_slot: self.slotted_in_slot,
        }
    }
}

/// The name under which the local player owns cards, slots and hands.
pub open spec fn local_player() -> Seq<char> {
    "todo"@
}

/// The local player's name.
pub fn local_player_id() -> (r: String)
    ensures
        r@ == local_player(),
{
    "todo".to_owned()
}

impl Card {
    /// The card's type, as printed on it.
    pub fn card_type(&self) -> (r: CardType)
        ensures
            r == self@.info.card_type,
    {
        self.info.card_type
    }

    /// Whether the local player may pick this card up.
    pub fn is_player_controlled(&self) -> (r: bool)
        ensures
            r == (self@.player_id == local_player()),
    {
        self.player_id == local_player_id()
    }
}

impl From<CardInfo> for Card {
    /// A fresh card of the local player, lying in no slot.
    fn from(card_info: CardInfo) -> (r: Self)
        ensures
            r@ == (CardView {
                info: card_info@,
                player_id: local_player(),
                slotted_in_slot: None,
            }),
    {
        Self { info: card_info, player_id: local_player_id(), slotted_in_slot: None }
    }
}

/// A card holds text, and text cannot be written down in a contract but by
/// its characters: so `from` states its result itself, by the card's view, and
/// nothing is said here.
impl vstd::std_specs::convert::FromSpecImpl<CardInfo> for Card {
    open spec fn obeys_from_spec() -> bool {
        false
    }

    open spec fn from_spec(v: CardInfo) -> Self {
        arbitrary()
    }
}

/// The card that the player holds with the mouse, if any.
#[derive(Clone, Copy, PartialEq, Eq, Structural)]
pub enum SelectedCard {
    /// The player holds this card.
    Held(EntityId),
    /// The player holds no card.
    Nothing,
}

impl Default for SelectedCard {
    fn default() -> (r: Self)
        ensures
            r == SelectedCard::Nothing,
    {
        SelectedCard::Nothing
    }
}

impl SelectedCard {
    /// Whether `entity` is the card held.
    pub fn is_selected(self, entity: EntityId) -> (r: bool)
        ensures
            r == (self == SelectedCard::Held(entity)),
    {
        match self {
            SelectedCard::Held(e) => e == entity,
            SelectedCard::Nothing => false,
        }
    }

    /// Lets go of the card held and says which one it was.
    pub fn release(&mut self) -> (r: Option<EntityId>)
        ensures
            *final(self) == SelectedCard::Nothing,
            r == (match *old(self) {
                SelectedCard::Held(e) => Option::Some(e),
                SelectedCard::Nothing => Option::None,
            }),
    {
        let held = match *self {
            SelectedCard::Held(e) => Option::Some(e),
            SelectedCard::Nothing => Option::None,
        };
        *self = SelectedCard::Nothing;
        held
    }
}

/// How dropping a card on a slot ended.
#[derive(Clone, Copy, PartialEq, Eq, Structural, Debug)]
pub enum Placement {
    /// The slot was taken; nothing changed.
    Refused,
    /// The card lies in the slot now. `vacated` is the slot it lay in
    /// before, which the caller has to empty.
    Placed { vacated: Option<EntityId> },
}

/// The card `card_entity` is dropped on the slot `slot_entity`.
///
/// An empty slot takes the card: the slot then holds the card, the card
/// records the slot, and the slot that the card came from is handed back to
/// be emptied. A slot that holds a card already refuses, and neither the slot
/// nor the card changes.
pub fn place_card(
    card_entity: EntityId,
    card: &mut Card,
    slot_entity: EntityId,
    slot: &mut Slot,
) -> (r: Placement)
    ensures
        final(slot).kind() == old(slot).kind(),
        old(slot).occupant().is_some() ==> {
            &&& r == Placement::Refused
            &&& final(slot).occupant() == old(slot).occupant()
            &&& final(card)@ == old(card)@
        },
        old(slot).occupant().is_none() ==> {
            &&& r == (Placement::Placed { vacated: old(card)@.slotted_in_slot })
            &&& final(slot).occupant() == Some(card_entity)
            &&& final(card)@ == (CardView { slotted_in_slot: Some(slot_entity), ..old(card)@ })
        },
{
    if slot.try_slotting_card(card_entity, card) {
        let vacated = card.slotted_in_slot;
        card.slotted_in_slot = Some(slot_entity);
        Placement::Placed { vacated }
    } else {
        Placement::Refused
    }
}

/// What the left mouse button did in a frame.
#[derive(Clone, Copy, PartialEq, Eq, Structural, Debug)]
pub enum Button {
    /// It went down.
    Pressed,
    /// It came up.
    Released,
}

/// The two slots that a step of the mouse can touch, as they are after it.
#[derive(Clone, Copy, PartialEq, Eq, Structural, Debug)]
pub struct Dropped {
    /// The hovered slot, where there is one.
    pub target: Option<Slot>,
    /// The slot that the card lay in, where there is one.
    pub home: Option<Slot>,
}

/// Whether the step lays the card `entity` into the hovered slot: the button
/// came up, the card was the card held, and the hovered slot is empty.
pub open spec fn lands(
    selected: SelectedCard,
    button: Button,
    entity: EntityId,
    target: Option<(EntityId, Slot)>,
) -> bool {
    &&& button == Button::Released
    &&& selected == SelectedCard::Held(entity)
    &&& target.is_some()
    &&& target.unwrap().1.occupant().is_none()
}

/// The selection after the step. A press on a card of the local player picks
/// it up, and a press on any other card changes nothing. After a release no
/// card is held.
pub open spec fn selection_after(
    selected: SelectedCard,
    button: Button,
    entity: EntityId,
    card: CardView,
) -> SelectedCard {
    match button {
        Button::Pressed => if card.player_id == local_player() {
            SelectedCard::Held(entity)
        } else {
            selected
        },
        Button::Released => SelectedCard::Nothing,
    }
}

/// The card after the step: where it lands it records the hovered slot, and
/// else it is as it was.
pub open spec fn card_after(
    selected: SelectedCard,
    button: Button,
    entity: EntityId,
    card: CardView,
    target: Option<(EntityId, Slot)>,
) -> CardView {
    if lands(selected, button, entity, target) {
        CardView { slotted_in_slot: Some(target.unwrap().0), ..card }
    } else {
        card
    }
}

/// Whether `after` is the hovered slot after the step.
///
/// Where the card lands, the slot keeps its kind and holds the card. (A card
/// that already recorded this very slot leaves it again at once: the slot is
/// then empty, as it was.) In every other case the slot is as it was.
pub open spec fn target_after(
    selected: SelectedCard,
    button: Button,
    entity: EntityId,
    card: CardView,
    target: Option<(EntityId, Slot)>,
    after: Option<Slot>,
) -> bool {
    if lands(selected, button, entity, target) {
        &&& after.is_some()
        &&& after.unwrap().kind() == target.unwrap().1.kind()
        &&& after.unwrap().occupant() == (if card.slotted_in_slot == Some(target.unwrap().0) {
            None
        } else {
            Some(entity)
        })
    } else {
        after == (match target {
            Some(t) => Some(t.1),
            None => None,
        })
    }
}

/// Whether `after` is the slot that the card lay in, after the step.
///
/// Where the card lands and recorded a slot, that slot keeps its kind and is
/// empty. In every other case the slot is as it was.
pub open spec fn home_after(
    selected: SelectedCard,
    button: Button,
    entity: EntityId,
    card: CardView,
    target: Option<(EntityId, Slot)>,
    home: Option<Slot>,
    after: Option<Slot>,
) -> bool {
    if lands(selected, button, entity, target) && card.slotted_in_slot.is_some()
        && home.is_some() {
        &&& after.is_some()
        &&& after.unwrap().kind() == home.unwrap().kind()
        &&& after.unwrap().occupant().is_none()
    } else {
        after == home
    }
}

/// One step of the left mouse button over the card `entity`.
///
/// On a press, `entity` is the card under the mouse, and `card` is that card.
/// A card of the local player becomes the card held, whatever was held
/// before; any other card leaves the selection as it was. Neither the card
/// nor a slot changes.
///
/// On a release, `entity` is the card held, `card` is that card, `target` is
/// the hovered slot with its handle, where there is one and it is a slot, and
/// `home` is the slot that the card records, where it records one and it is a
/// slot. After a release no card is held. Over an empty slot the card lands:
/// the slot holds the card, the card records the slot, and the slot that the
/// card lay in is emptied. Over no slot or over a slot that holds a card, the
/// card and both slots stay as they were; so they do where `entity` was not
/// the card held.
///
/// The slots come back as they are after the step.
pub fn select_card(
    selected: &mut SelectedCard,
    button: Button,
    entity: EntityId,
    card: &mut Card,
    target: Option<(EntityId, Slot)>,
    home: Option<Slot>,
) -> (r: Dropped)
    ensures
        *final(selected) == selection_after(*old(selected), button, entity, old(card)@),
        final(card)@ == card_after(*old(selected), button, entity, old(card)@, target),
        target_after(*old(selected), button, entity, old(card)@, target, r.target),
        home_after(*old(selected), button, entity, old(card)@, target, home, r.home),
{
    let untouched = Dropped {
        target: match target {
            Some(t) => Some(t.1),
            None => None,
        },
        home,
    };
    match button {
        Button::Pressed => {
            if card.is_player_controlled() {
                *selected = SelectedCard::Held(entity);
            }
            untouched
        },
        Button::Released => {
            let held = selected.is_selected(entity);
            selected.release();
            if !held {
                return untouched;
            }
            match target {
                None => untouched,
                Some((slot_entity, slot_before)) => {
                    let mut slot = slot_before;
                    match place_card(entity, card, slot_entity, &mut slot) {
                        Placement::Refused => untouched,
                        Placement::Placed { vacated } => {
                            let mut home_now = home;
                            if let Some(left) = vacated {
                                if left == slot_entity {
                                    slot.remove_slotted_entity();
                                }
                                if let Some(home_before) = home {
                                    let mut emptied = home_before;
                                    emptied.remove_slotted_entity();
                                    home_now = Some(emptied);
                                }
                            }
                            Dropped { target: Some(slot), home: home_now }
                        },
                    }
                },
            }
        },
    }
}

/// Whether the cards and the slots of a table name each other: a card records
/// a slot exactly when that slot holds the card.
pub open spec fn consistent(cards: Map<EntityId, CardView>, slots: Map<EntityId, Slot>) -> bool {
    forall|c: EntityId, s: EntityId|
        cards.dom().contains(c) && slots.dom().contains(s) ==> ((#[trigger] cards[c]).slotted_in_slot
            == Some(s) <==> (#[trigger] slots[s]).occupant() == Some(c))
}

/// The slot behind a handle, where there is a handle and it is a slot's.
pub open spec fn slot_at(slots: Map<EntityId, Slot>, at: Option<EntityId>) -> Option<Slot> {
    match at {
        Some(s) => if slots.dom().contains(s) {
            Some(slots[s])
        } else {
            None
        },
        None => None,
    }
}

/// The hovered slot with its handle, where a slot is hovered.
pub open spec fn target_at(slots: Map<EntityId, Slot>, hovered: HoveredSlot) -> Option<
    (EntityId, Slot),
> {
    match slot_at(slots, hovered.0) {
        Some(slot) => Some((hovered.0.unwrap(), slot)),
        None => None,
    }
}

/// The slots with `slot` put back behind the handle that it was read from.
pub open spec fn put_back(
    slots: Map<EntityId, Slot>,
    at: Option<EntityId>,
    slot: Option<Slot>,
) -> Map<EntityId, Slot> {
    if slot_at(slots, at).is_some() && slot.is_some() {
        slots.insert(at.unwrap(), slot.unwrap())
    } else {
        slots
    }
}

/// A step of the mouse keeps cards and slots naming each other.
///
/// Take a table on which every card records exactly the slot that holds it.
/// Let `select_card` make a step for one of its cards, with the hovered slot
/// and the card's own slot read from the table, and let `dropped` be what came
/// back. Put the card and the two slots back on the table: every card still
/// records exactly the slot that holds it, whatever the mouse did.
pub proof fn select_card_keeps_consistent(
    cards: Map<EntityId, CardView>,
    slots: Map<EntityId, Slot>,
    selected: SelectedCard,
    button: Button,
    entity: EntityId,
    hovered: HoveredSlot,
    dropped: Dropped,
)
    requires
        cards.dom().contains(entity),
        consistent(cards, slots),
        target_after(
            selected,
            button,
            entity,
            cards[entity],
            target_at(slots, hovered),
            dropped.target,
        ),
        home_after(
            selected,
            button,
            entity,
            cards[entity],
            target_at(slots, hovered),
            slot_at(slots, cards[entity].slotted_in_slot),
            dropped.home,
        ),
    ensures
        consistent(
            cards.insert(
                entity,
                card_after(selected, button, entity, cards[entity], target_at(slots, hovered)),
            ),
            put_back(
                put_back(slots, hovered.0, dropped.target),
                cards[entity].slotted_in_slot,
                dropped.home,
            ),
        ),
{
    let target = target_at(slots, hovered);
    let card = cards[entity];
    let cards_after = cards.insert(entity, card_after(selected, button, entity, card, target));
    let slots_mid = put_back(slots, hovered.0, dropped.target);
    let slots_after = put_back(slots_mid, card.slotted_in_slot, dropped.home);
    if lands(selected, button, entity, target) {
        let s = hovered.0.unwrap();
        assert(slots.dom().contains(s) && slots[s].occupant().is_none());
        assert(card.slotted_in_slot != Some(s));
        assert forall|c: EntityId, t: EntityId|
            cards_after.dom().contains(c) && slots_after.dom().contains(t) implies ((
        #[trigger] cards_after[c]).slotted_in_slot == Some(t) <==> (
        #[trigger] slots_after[t]).occupant() == Some(c)) by {
            assert(cards[c].slotted_in_slot == Some(t) <==> slots[t].occupant() == Some(c));
            assert(cards[c].slotted_in_slot == Some(s) <==> slots[s].occupant() == Some(c));
            if slot_at(slots, card.slotted_in_slot).is_some() {
                let p = card.slotted_in_slot.unwrap();
                assert(card.slotted_in_slot == Some(p) <==> slots[p].occupant() == Some(entity));
                assert(cards[c].slotted_in_slot == Some(p) <==> slots[p].occupant() == Some(c));
            }
        }
    } else {
        assert(cards_after =~= cards);
        assert(slots_mid =~= slots);
        assert(slots_after =~= slots);
    }
}

/// What moves a card this frame.
#[derive(Clone, Copy, PartialEq, Eq, Structural, Debug)]
pub enum CardMotion {
    /// The player holds the card: it follows the mouse.
    Dragged,
    /// The card is let go and settles on the slot it lies in.
    Slotted(EntityId),
    /// The card is let go and lies in no slot.
    Loose,
}

/// Two slots that change places on the table.
#[derive(Clone, Copy, PartialEq, Eq, Structural, Debug)]
pub struct SlotSwap {
    /// The slot under the dragged card.
    pub over: EntityId,
    /// The slot that the dragged card lies in.
    pub home: EntityId,
}

/// What one frame does with one card.
#[derive(Clone, Copy, PartialEq, Eq, Structural, Debug)]
pub struct CardStep {
    /// The slots that change places, if any do.
    pub swap: Option<SlotSwap>,
    /// What moves the card.
    pub motion: CardMotion,
}

/// The step that `move_card` takes.
pub open spec fn card_step(
    selected: SelectedCard,
    hovered: HoveredSlot,
    mouse_just_pressed: bool,
    card_entity: EntityId,
    card: CardView,
) -> CardStep {
    if selected == SelectedCard::Held(card_entity) {
        CardStep {
            swap: match (hovered.0, card.slotted_in_slot) {
                (Some(over), Some(home)) if !mouse_just_pressed && over != home => Some(
                    SlotSwap { over, home },
                ),
                _ => None,
            },
            motion: CardMotion::Dragged,
        }
    } else {
        CardStep {
            swap: None,
            motion: match card.slotted_in_slot {
                Some(home) => CardMotion::Slotted(home),
                None => CardMotion::Loose,
            },
        }
    }
}

/// Decides what one frame does with the card `card_entity`.
///
/// The card held is dragged. While it is dragged over a slot other than its
/// own, and the mouse button did not go down in this very frame, the two
/// slots change places. Every other card settles on its slot, or lies loose.
pub fn move_card(
    selected: SelectedCard,
    hovered: &HoveredSlot,
    mouse_just_pressed: bool,
    card_entity: EntityId,
    card: &Card,
) -> (r: CardStep)
    ensures
        r == card_step(selected, *hovered, mouse_just_pressed, card_entity, card@),
{
    if selected.is_selected(card_entity) {
        let mut swap: Option<SlotSwap> = None;
        if !mouse_just_pressed {
            if let Some(over) = hovered.0 {
                if let Some(home) = card.slotted_in_slot {
                    if over != home {
                        swap = Some(SlotSwap { over, home });
                    }
                }
            }
        }
        CardStep { swap, motion: CardMotion::Dragged }
    } else {
        let motion = match card.slotted_in_slot {
            Some(home) => CardMotion::Slotted(home),
            None => CardMotion::Loose,
        };
        CardStep { swap: None, motion }
    }
}

} // verus!
