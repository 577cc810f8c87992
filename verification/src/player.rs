//! Players and their health.

use vstd::prelude::*;
use crate::card::{local_player, local_player_id};
use crate::entity::EntityId;

verus! {

/// One of the two sides of the game.
pub struct Player {
    player_id: String,
    health: i32,
}

/// A player as plain values.
pub struct PlayerView {
    pub player_id: Seq<char>,
    pub health: int,
}

impl View for Player {
    type V = PlayerView;

    closed spec fn view(&self) -> PlayerView {
        PlayerView { player_id: self.player_id@, health: self.health as int }
    }
}

/// A player was hit.
#[derive(Clone, Copy, PartialEq, Eq, Structural, Debug)]
pub struct EvtBeHurt {
    pub player_entity: EntityId,
    pub damage: i32,
}

impl Default for Player {
    /// The local player at full health.
    fn default() -> (r: Self)
        ensures
            r@ == (PlayerView { player_id: local_player(), health: Player::DEFAULT_HEALTH as int }),
    {
        Self { player_id: local_player_id(), health: Player::DEFAULT_HEALTH }
    }
}

impl Player {
    /// The health that a player starts with.
    pub const DEFAULT_HEALTH: i32 = 20;

    /// The name that tells this player from the other.
    pub fn id(&self) -> (r: String)
        ensures
            r@ == self@.player_id,
    {
        self.player_id.clone()
    }

    /// The health that the player has left. It is below zero once the player
    /// has taken more damage than they had health.
    pub fn health(&self) -> (r: i32)
        ensures
            r == self@.health,
    {
        self.health
    }
}

/// Takes the damage of one hit off the player's health.
///
/// A hit with negative damage heals. The health after the hit has to be a
/// number that an `i32` can hold.
pub fn decrease_health(player: &mut Player, evt: &EvtBeHurt)
    requires
        i32::MIN <= old(player)@.health - evt.damage <= i32::MAX,
    ensures
        final(player)@ == (PlayerView {
            health: old(player)@.health - evt.damage,
            ..old(player)@
        }),
{
    player.health -= evt.damage;
}

} // verus!
