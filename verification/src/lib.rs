//! Rules of a card-and-ball table game, kept apart from any engine.
//!
//! The crate knows nothing of windows, meshes or physics. It holds what a
//! front end has to decide each frame: which card is picked up, which slot a
//! dragged card aims at, whether a slot takes a card, who owns a hand slot, how
//! much health a player has left. A front end hands in plain values and acts
//! on what comes back.

pub mod animate;
pub mod camera;
pub mod card;
pub mod collider;
pub mod deck;
pub mod entity;
pub mod hand;
pub mod menu;
pub mod player;
pub mod slot;
pub mod state;
