//! What a guess can be answered with.

use vstd::prelude::*;

verus! {

/// How a guess relates to the secret.
#[derive(Clone, Copy, Debug, PartialEq, Eq, Structural)]
pub enum GuessResult {
    /// The guess is below the secret.
    TooLow,
    /// The guess is above the secret.
    TooHigh,
    /// The guess is the secret, or the game was already won.
    Correct,
}

/// The answer to an accepted guess.
#[derive(Clone, Copy, Debug, PartialEq, Eq, Structural)]
pub struct GuessOutcome {
    /// How the guess relates to the secret.
    pub result: GuessResult,
    /// The number of guesses counted so far, this one included.
    pub attempts: u32,
}

/// Why a value was refused.
#[derive(Clone, Copy, Debug, PartialEq, Eq, Structural)]
pub enum GameError {
    /// The value lies outside `1..=max`.
    OutOfRange,
}

impl GuessResult {
    /// The tag under which this result is written in a response record.
    pub open spec fn tag(self) -> Seq<char> {
        match self {
            GuessResult::TooLow => "low"@,
            GuessResult::TooHigh => "high"@,
            GuessResult::Correct => "correct"@,
        }
    }

    /// Returns the tag of this result: `"low"`, `"high"` or `"correct"`.
    pub fn as_str(self) -> (text: &'static str)
        ensures
            text@ == self.tag(),
    {
        match self {
            GuessResult::TooLow => "low",
            GuessResult::TooHigh => "high",
            GuessResult::Correct => "correct",
        }
    }

    /// The three tags differ from one another, so a response record names
    /// exactly one result.
    pub proof fn tags_are_distinct(a: GuessResult, b: GuessResult)
        requires
            a.tag() == b.tag(),
        ensures
            a == b,
    {
        reveal_strlit("low");
        reveal_strlit("high");
        reveal_strlit("correct");
        assert("low"@.len() == 3 && "high"@.len() == 4 && "correct"@.len() == 7);
    }
}

} // verus!
