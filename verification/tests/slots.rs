use cardpong::card::{Card, CardInfo, CardStats, CardType, SelectedCard};
use cardpong::entity::EntityId;
use cardpong::slot::{hover_slot, HoveredSlot, Slot, SlotDistance, SlotType};

fn id(bits: u64) -> EntityId {
    EntityId::from_bits(bits)
}

fn some_card() -> Card {
    Card::from(CardInfo {
        name: "wolf".to_string(),
        name_zh: "狼".to_string(),
        desc: "bites".to_string(),
        card_type: CardType::Creature,
        stats: CardStats { toughness: 2, power: 3, toughness_max: 2 },
    })
}

fn at(slot: u64, distance: f32) -> SlotDistance {
    SlotDistance { slot: id(slot), distance: distance.to_bits() }
}

#[test]
fn a_new_slot_holds_what_it_was_given() {
    let empty = Slot::new(SlotType::Battlefield, None);
    assert!(!empty.has_slot());
    assert_eq!(empty.get_type(), SlotType::Battlefield);
    assert_eq!(empty.slotted_entity(), None);
    let full = Slot::new(SlotType::Hand, Some(id(7)));
    assert!(full.has_slot());
    assert_eq!(full.get_type(), SlotType::Hand);
    assert_eq!(full.slotted_entity(), Some(id(7)));
}

#[test]
fn the_default_slot_is_empty_and_belongs_anywhere() {
    let slot = Slot::default();
    assert_eq!(slot.get_type(), SlotType::Anywhere);
    assert!(!slot.has_slot());
    assert_eq!(slot, Slot::new(SlotType::Anywhere, None));
}

#[test]
fn an_empty_slot_takes_a_card() {
    let card = some_card();
    let mut slot = Slot::new(SlotType::Battlefield, None);
    assert!(slot.try_slotting_card(id(4), &card));
    assert_eq!(slot.slotted_entity(), Some(id(4)));
    assert_eq!(slot.get_type(), SlotType::Battlefield);
}

#[test]
fn a_full_slot_refuses_a_second_card() {
    let card = some_card();
    let mut slot = Slot::new(SlotType::Battlefield, Some(id(4)));
    assert!(!slot.try_slotting_card(id(5), &card));
    assert_eq!(slot.slotted_entity(), Some(id(4)));
}

#[test]
fn a_full_slot_refuses_the_card_it_holds() {
    let card = some_card();
    let mut slot = Slot::new(SlotType::Deck, Some(id(4)));
    assert!(!slot.try_slotting_card(id(4), &card));
    assert_eq!(slot, Slot::new(SlotType::Deck, Some(id(4))));
}

#[test]
fn an_emptied_slot_takes_a_card_again() {
    let card = some_card();
    let mut slot = Slot::new(SlotType::Hand, Some(id(1)));
    slot.remove_slotted_entity();
    assert!(!slot.has_slot());
    assert_eq!(slot.get_type(), SlotType::Hand);
    assert!(slot.try_slotting_card(id(2), &card));
    assert_eq!(slot.slotted_entity(), Some(id(2)));
}

#[test]
fn emptying_an_empty_slot_changes_nothing() {
    let mut slot = Slot::new(SlotType::Hand, None);
    slot.remove_slotted_entity();
    assert_eq!(slot, Slot::new(SlotType::Hand, None));
}

#[test]
fn reach_is_half_a_unit() {
    assert_eq!(Slot::REACH, 0.5f32.to_bits());
    assert_eq!(Slot::REACH, 0x3F00_0000);
}

#[test]
fn no_slots_no_nearest() {
    assert_eq!(Slot::get_nearest_slot(&vec![]), None);
}

#[test]
fn the_nearest_slot_within_reach_is_found() {
    let slots = vec![at(1, 0.4), at(2, 0.1), at(3, 0.3)];
    assert_eq!(Slot::get_nearest_slot(&slots), Some(1));
}

#[test]
fn of_equally_near_slots_the_first_is_found() {
    let slots = vec![at(1, 0.45), at(2, 0.25), at(3, 0.25), at(4, 0.25)];
    assert_eq!(Slot::get_nearest_slot(&slots), Some(1));
}

#[test]
fn a_slot_exactly_at_reach_is_too_far() {
    let slots = vec![at(1, 0.5), at(2, 2.0)];
    assert_eq!(Slot::get_nearest_slot(&slots), None);
    let slots = vec![at(1, 0.5), at(2, 0.49999997)];
    assert_eq!(Slot::get_nearest_slot(&slots), Some(1));
}

#[test]
fn a_slot_right_under_the_mouse_is_the_nearest() {
    let slots = vec![at(1, 0.2), at(2, 0.0)];
    assert_eq!(Slot::get_nearest_slot(&slots), Some(1));
}

#[test]
fn a_distance_that_is_no_number_is_never_near() {
    let slots = vec![at(1, f32::NAN), at(2, f32::INFINITY)];
    assert_eq!(Slot::get_nearest_slot(&slots), None);
    let slots = vec![at(1, f32::NAN), at(2, 0.3)];
    assert_eq!(Slot::get_nearest_slot(&slots), Some(1));
}

#[test]
fn keys_order_as_plain_numbers() {
    let slots = vec![
        SlotDistance { slot: id(1), distance: 7 },
        SlotDistance { slot: id(2), distance: 3 },
        SlotDistance { slot: id(3), distance: u32::MAX },
    ];
    assert_eq!(Slot::get_nearest_slot(&slots), Some(1));
    let slots = vec![SlotDistance { slot: id(1), distance: Slot::REACH - 1 }];
    assert_eq!(Slot::get_nearest_slot(&slots), Some(0));
    let slots = vec![SlotDistance { slot: id(1), distance: Slot::REACH }];
    assert_eq!(Slot::get_nearest_slot(&slots), None);
}

#[test]
fn a_held_card_hovers_the_nearest_slot() {
    let slots = vec![at(10, 0.4), at(11, 0.2)];
    let mut hovered = HoveredSlot(None);
    hover_slot(&mut hovered, SelectedCard::Held(id(1)), Some(&slots));
    assert_eq!(hovered, HoveredSlot(Some(id(11))));
}

#[test]
fn a_held_card_far_from_every_slot_hovers_none() {
    let slots = vec![at(10, 0.9), at(11, 0.5)];
    let mut hovered = HoveredSlot(Some(id(10)));
    hover_slot(&mut hovered, SelectedCard::Held(id(1)), Some(&slots));
    assert_eq!(hovered, HoveredSlot(None));
}

#[test]
fn a_held_card_off_the_table_hovers_none() {
    let mut hovered = HoveredSlot(Some(id(10)));
    hover_slot(&mut hovered, SelectedCard::Held(id(1)), None);
    assert_eq!(hovered, HoveredSlot(None));
}

#[test]
fn without_a_held_card_the_hovered_slot_stays() {
    let slots = vec![at(10, 0.4), at(11, 0.2)];
    let mut hovered = HoveredSlot(Some(id(10)));
    hover_slot(&mut hovered, SelectedCard::Nothing, Some(&slots));
    assert_eq!(hovered, HoveredSlot(Some(id(10))));
    hover_slot(&mut hovered, SelectedCard::Nothing, None);
    assert_eq!(hovered, HoveredSlot(Some(id(10))));
    let mut hovered = HoveredSlot(None);
    hover_slot(&mut hovered, SelectedCard::Nothing, Some(&slots));
    assert_eq!(hovered, HoveredSlot(None));
}

#[test]
fn an_empty_slot_is_drawn_and_a_full_one_is_not() {
    let empty = Slot::new(SlotType::Battlefield, None);
    let full = Slot::new(SlotType::Battlefield, Some(id(1)));
    let nowhere = HoveredSlot(None);
    assert!(empty.is_visible(id(10), SelectedCard::Nothing, &nowhere));
    assert!(!full.is_visible(id(10), SelectedCard::Nothing, &nowhere));
    assert!(empty.is_visible(id(10), SelectedCard::Held(id(1)), &nowhere));
    assert!(!full.is_visible(id(10), SelectedCard::Held(id(1)), &nowhere));
}

#[test]
fn the_slot_under_a_held_card_is_not_drawn() {
    let empty = Slot::new(SlotType::Battlefield, None);
    let here = HoveredSlot(Some(id(10)));
    assert!(!empty.is_visible(id(10), SelectedCard::Held(id(1)), &here));
    assert!(empty.is_visible(id(11), SelectedCard::Held(id(1)), &here));
}

#[test]
fn a_stale_hovered_slot_is_drawn_while_no_card_is_held() {
    let empty = Slot::new(SlotType::Battlefield, None);
    let here = HoveredSlot(Some(id(10)));
    assert!(empty.is_visible(id(10), SelectedCard::Nothing, &here));
}

#[test]
fn no_slot_is_hovered_at_first() {
    assert_eq!(HoveredSlot::default(), HoveredSlot(None));
}
