//! The deck: the pile that cards are drawn from.

use vstd::prelude::*;
use crate::card::CardInfo;

verus! {

/// A pile of cards. The last card is the one on top.
pub struct Deck {
    slots: Vec<CardInfo>,
}

impl View for Deck {
    type V = Seq<CardInfo>;

    closed spec fn view(&self) -> Seq<CardInfo> {
        self.slots@
    }
}

/// Cards were drawn from the deck: these are the cards.
pub struct EvtDrawCardFromDeck {
    pub card_infos: Vec<CardInfo>,
}

impl Deck {
    /// A deck without cards.
    pub fn new() -> (r: Self)
        ensures
            r@ == Seq::<CardInfo>::empty(),
    {
        Deck { slots: Vec::new() }
    }

    /// The number of cards in the deck.
    pub fn len(&self) -> (r: usize)
        ensures
            r == self@.len(),
    {
        self.slots.len()
    }

    /// Lays a card on top of the deck.
    pub fn push(&mut self, card_info: CardInfo)
        ensures
            final(self)@ == old(self)@.push(card_info),
    {
        self.slots.push(card_info);
    }

    /// Takes the top card off the deck, if the deck has a card.
    pub fn pop(&mut self) -> (r: Option<CardInfo>)
        ensures
            old(self)@.len() == 0 ==> r.is_none() && final(self)@ == old(self)@,
            old(self)@.len() > 0 ==> r == Some(old(self)@.last()) && final(self)@ == old(
                self,
            )@.drop_last(),
    {
        self.slots.pop()
    }
}

/// The player asks for a card: the deck gives its top card.
///
/// What was drawn is told in any case. Of an empty deck it is told that no
/// card was drawn.
pub fn on_deck_spawn_card(deck: &mut Deck) -> (r: EvtDrawCardFromDeck)
    ensures
        old(deck)@.len() == 0 ==> r.card_infos@ == Seq::<CardInfo>::empty() && final(deck)@
            == old(deck)@,
        old(deck)@.len() > 0 ==> r.card_infos@ == seq![old(deck)@.last()] && final(deck)@ == old(
            deck,
        )@.drop_last(),
{
    let mut card_infos = Vec::new();
    if let Some(card_info) = deck.pop() {
        card_infos.push(card_info);
    }
    EvtDrawCardFromDeck { card_infos }
}

} // verus!
