//! A two-player pebbles game: a user against an automated opponent.
//!
//! The engine is a verified state machine. Randomness is handed in as a
//! sequence of draws, so every outcome is a function of the game state, the
//! command and the draws that remain.
pub mod game;
pub mod laws;
pub mod random;
pub mod strategy;
pub mod types;

pub use game::{handle, init, state, PebbleGame};
pub use random::RandomSource;
pub use types::{
    ConfigurationError, DifficultLevel, GameError, GameStatus, InvalidMove, PebblesAction,
    PebblesEvent, PebblesInit, Player,
};
