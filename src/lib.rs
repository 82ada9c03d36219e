//! An engine for the turn-based card game with numbered, action and wild cards:
//! the card model and playability rule, a random card source, a lobby of named
//! players and the game state machine.

pub mod card;
pub mod deck;
pub mod game;
