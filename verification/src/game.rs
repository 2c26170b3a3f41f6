//! The executable game session.

use vstd::prelude::*;
use crate::outcome::{GameError, GuessOutcome, GuessResult};
use crate::random::generate_secret;
use crate::session::{clamped, initial_max, Session, DEFAULT_MAX};

verus! {

/// One game: a hidden secret in `1..=max`, the count of the guesses made, and
/// whether the secret has been found.
pub struct Game {
    secret: u32,
    max: u32,
    attempts: u32,
    finished: bool,
}

impl View for Game {
    type V = Session;

    closed spec fn view(&self) -> Session {
        Session {
            secret: self.secret as nat,
            max: self.max as nat,
            attempts: self.attempts as nat,
            finished: self.finished,
        }
    }
}

/// Clamps a requested upper bound to at least 1.
fn clamp(requested: u32) -> (max: u32)
    ensures
        max == clamped(requested),
{
    if requested < 1 {
        1
    } else {
        requested
    }
}

/// The upper bound of a new game: the requested one, clamped, or the default.
fn starting_max(requested: Option<u32>) -> (max: u32)
    ensures
        max == initial_max(requested),
{
    match requested {
        Some(m) => clamp(m),
        None => DEFAULT_MAX,
    }
}

impl Game {
    /// Holds of every game: the secret is one of the values that may be
    /// guessed.
    #[verifier::type_invariant]
    spec fn secret_within_bounds(self) -> bool {
        1 <= self.secret <= self.max
    }

    /// Starts a game with the upper bound `max`, clamped to at least 1, or
    /// with 100 where `max` is `None`, and draws its secret.
    pub fn new(max: Option<u32>) -> (game: Game)
        ensures
            game@ == Session::fresh(initial_max(max), game@.secret),
            game@.wf(),
    {
        let bound = starting_max(max);
        let secret = generate_secret(bound);
        Game { secret, max: bound, attempts: 0, finished: false }
    }

    /// Starts a game as `new` does, with `secret` in place of a drawn
    /// number. A secret outside the bounds is refused.
    pub fn with_secret(max: Option<u32>, secret: u32) -> (made: Result<Game, GameError>)
        ensures
            made is Ok <==> 1 <= secret <= initial_max(max),
            made matches Ok(game) ==> game@ == Session::fresh(initial_max(max), secret as nat)
                && game@.wf(),
            made matches Err(e) ==> e == GameError::OutOfRange,
    {
        let bound = starting_max(max);
        if secret < 1 || secret > bound {
            return Err(GameError::OutOfRange);
        }
        Ok(Game { secret, max: bound, attempts: 0, finished: false })
    }

    /// The upper bound after a reset: the requested one, clamped, or the
    /// current one.
    fn max_for_reset(&self, requested: Option<u32>) -> (max: u32)
        ensures
            max == self@.max_after_reset(requested),
            max >= 1,
    {
        proof {
            use_type_invariant(self);
        }
        match requested {
            Some(m) => clamp(m),
            None => self.max,
        }
    }

    /// Starts the game anew: takes `max`, clamped to at least 1, as the upper
    /// bound, or keeps the current one where `max` is `None`; draws a secret
    /// and clears the count and the win.
    pub fn reset(&mut self, max: Option<u32>)
        ensures
            final(self)@ == old(self)@.after_reset(max, final(self)@.secret),
            final(self)@.wf(),
    {
        let bound = self.max_for_reset(max);
        let secret = generate_secret(bound);
        *self = Game { secret, max: bound, attempts: 0, finished: false };
    }

    /// Starts the game anew as `reset` does, with `secret` in place of a
    /// drawn number. A secret outside the new bounds is refused, and the
    /// game stays as it is.
    pub fn reset_with_secret(&mut self, max: Option<u32>, secret: u32) -> (done: Result<(), GameError>)
        ensures
            done is Ok <==> 1 <= secret <= old(self)@.max_after_reset(max),
            done is Ok ==> final(self)@ == old(self)@.after_reset(max, secret as nat),
            done matches Err(e) ==> e == GameError::OutOfRange && final(self)@ == old(self)@,
            final(self)@.wf(),
    {
        proof {
            use_type_invariant(&*self);
        }
        let bound = self.max_for_reset(max);
        if secret < 1 || secret > bound {
            return Err(GameError::OutOfRange);
        }
        *self = Game { secret, max: bound, attempts: 0, finished: false };
        Ok(())
    }

    /// Answers a guess. A value outside `1..=max` is refused and changes
    /// nothing. At a game already won the answer is `Correct` with the count
    /// as it stands. Otherwise the guess is counted, the count stopping at
    /// `u32::MAX`, and compared with the secret.
    pub fn guess(&mut self, value: u32) -> (outcome: Result<GuessOutcome, GameError>)
        ensures
            outcome == old(self)@.reply(value as int),
            final(self)@ == old(self)@.after_guess(value as int),
            final(self)@.wf(),
    {
        proof {
            use_type_invariant(&*self);
        }
        if value < 1 || value > self.max {
            return Err(GameError::OutOfRange);
        }
        if self.finished {
            return Ok(GuessOutcome { result: GuessResult::Correct, attempts: self.attempts });
        }
        self.attempts = self.attempts.saturating_add(1);
        let result = if value < self.secret {
            GuessResult::TooLow
        } else if value > self.secret {
            GuessResult::TooHigh
        } else {
            self.finished = true;
            GuessResult::Correct
        };
        Ok(GuessOutcome { result, attempts: self.attempts })
    }

    /// Returns the number of guesses counted so far.
    pub fn get_attempts(&self) -> (attempts: u32)
        ensures
            attempts == self@.attempts,
    {
        self.attempts
    }

    /// Returns the upper bound of the range, which is at least 1.
    pub fn get_max(&self) -> (max: u32)
        ensures
            max == self@.max,
            max >= 1,
    {
        proof {
            use_type_invariant(self);
        }
        self.max
    }
}

} // verus!
