//! A number guessing game: a secret between 1 and 100, a budget of attempts
//! that depends on the difficulty, directional feedback on each guess, and a
//! history of winning scores kept across rounds.

pub mod text;
pub mod error;

pub use error::GameError;
pub mod game;
pub mod prompt;
pub mod laws;
