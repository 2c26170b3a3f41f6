//! A number-guessing game: a hidden secret in `1..=max`, feedback on every
//! guess, and a count of the guesses made.
//!
//! The executable session is [`Game`]. Its behaviour is stated over the
//! mathematical state [`Session`], and the properties that relate several
//! operations are proved in [`laws`].

pub mod game;
pub mod laws;
pub mod outcome;
pub mod random;
pub mod session;

pub use game::Game;
pub use outcome::{GameError, GuessOutcome, GuessResult};
pub use random::generate_secret;
pub use session::{Session, DEFAULT_MAX};
