//! Flin: a two-player trick-taking card game engine.
//!
//! The engine is a finite state machine over a [`Game`] value: it deals
//! cards, records the two cards of the current trick, resolves the trick
//! winner against the trump suit, scores the winners' stacks, and declares
//! a winner once both hands are empty.

pub mod card;
pub mod deck;
pub mod game;
pub mod laws;
pub mod model;
pub mod trick;

pub use card::Card;
pub use card::EPlayer;
pub use card::ESuit;
pub use card::EValue;
pub use card::get_opponent;
pub use deck::get_deck;
pub use deck::get_deck_shuffled;
pub use game::Game;
pub use model::EGameState;
pub use model::GameModel;
pub use trick::wins;
