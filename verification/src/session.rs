//! The mathematical state of a game, and how each operation changes it.

use vstd::prelude::*;
use crate::outcome::{GameError, GuessOutcome, GuessResult};

verus! {

/// The upper bound of a session that was asked for none.
pub const DEFAULT_MAX: u32 = 100;

/// The state of one game.
pub struct Session {
    /// The number to be found.
    pub secret: nat,
    /// The largest value that may be guessed; the smallest is 1.
    pub max: nat,
    /// The guesses counted so far.
    pub attempts: nat,
    /// Whether the secret has been found.
    pub finished: bool,
}

/// The upper bound that a requested bound stands for: itself, or 1 where it
/// is below 1.
pub open spec fn clamped(requested: u32) -> nat {
    if requested < 1 {
        1
    } else {
        requested as nat
    }
}

/// The upper bound of a new session.
pub open spec fn initial_max(requested: Option<u32>) -> nat {
    match requested {
        Some(m) => clamped(m),
        None => DEFAULT_MAX as nat,
    }
}

/// The count that follows `attempts`: one more, but never beyond `u32::MAX`.
pub open spec fn counted_once_more(attempts: nat) -> nat {
    if attempts < u32::MAX {
        attempts + 1
    } else {
        attempts
    }
}

impl Session {
    /// The secret lies within the bounds, and the bounds and the count fit
    /// the machine integers that hold them.
    pub open spec fn wf(self) -> bool {
        &&& 1 <= self.secret <= self.max
        &&& self.max <= u32::MAX
        &&& self.attempts <= u32::MAX
    }

    /// A session in which no guess has been made yet.
    pub open spec fn fresh(max: nat, secret: nat) -> Session {
        Session { secret, max, attempts: 0, finished: false }
    }

    /// The upper bound after a reset: the requested one, clamped, or the
    /// current one where none is requested.
    pub open spec fn max_after_reset(self, requested: Option<u32>) -> nat {
        match requested {
            Some(m) => clamped(m),
            None => self.max,
        }
    }

    /// The session that a reset with the newly drawn `secret` leaves.
    pub open spec fn after_reset(self, requested: Option<u32>, secret: nat) -> Session {
        Session::fresh(self.max_after_reset(requested), secret)
    }

    /// Whether `value` may be guessed.
    pub open spec fn accepts(self, value: int) -> bool {
        1 <= value <= self.max
    }

    /// What an accepted guess of `value` is answered with.
    pub open spec fn feedback(self, value: int) -> GuessResult {
        if self.finished || value == self.secret {
            GuessResult::Correct
        } else if value < self.secret {
            GuessResult::TooLow
        } else {
            GuessResult::TooHigh
        }
    }

    /// The session after a guess of `value`. A refused guess and a guess at a
    /// game already won change nothing; any other guess is counted, and wins
    /// the game where it equals the secret.
    pub open spec fn after_guess(self, value: int) -> Session {
        if !self.accepts(value) || self.finished {
            self
        } else {
            Session {
                attempts: counted_once_more(self.attempts),
                finished: value == self.secret,
                ..self
            }
        }
    }

    /// The reply to a guess of `value`: the refusal, or the feedback together
    /// with the count after the guess.
    pub open spec fn reply(self, value: int) -> Result<GuessOutcome, GameError> {
        if !self.accepts(value) {
            Err(GameError::OutOfRange)
        } else {
            Ok(
                GuessOutcome {
                    result: self.feedback(value),
                    attempts: self.after_guess(value).attempts as u32,
                },
            )
        }
    }

    /// The session after the guesses of `values`, made in order.
    pub open spec fn after_guesses(self, values: Seq<int>) -> Session
        decreases values.len(),
    {
        if values.len() == 0 {
            self
        } else {
            self.after_guess(values.first()).after_guesses(values.drop_first())
        }
    }
}

} // verus!
