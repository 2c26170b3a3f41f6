//! Properties of the game that relate several operations, proved over
//! [`Session`].

use vstd::prelude::*;
use crate::outcome::{GameError, GuessOutcome, GuessResult};
use crate::session::{initial_max, Session};

verus! {

/// The number of guesses among `values` that a game with this secret counts:
/// every guess up to and including the first that equals the secret.
pub open spec fn counted_guesses(secret: nat, values: Seq<int>) -> nat
    decreases values.len(),
{
    if values.len() == 0 {
        0
    } else if values.first() == secret {
        1
    } else {
        1 + counted_guesses(secret, values.drop_first())
    }
}

/// Whether the session accepts every one of `values`.
pub open spec fn all_accepted(s: Session, values: Seq<int>) -> bool {
    forall|i: int| 0 <= i < values.len() ==> s.accepts(#[trigger] values[i])
}

/// In a game not yet won, the feedback follows the order of guess and
/// secret: `TooLow` below the secret, `TooHigh` above it, and `Correct` at
/// the secret and nowhere else.
pub proof fn feedback_follows_order(s: Session, value: int)
    requires
        !s.finished,
    ensures
        s.feedback(value) == GuessResult::TooLow <==> value < s.secret,
        s.feedback(value) == GuessResult::TooHigh <==> value > s.secret,
        s.feedback(value) == GuessResult::Correct <==> value == s.secret,
{
}

/// In a well-formed game not yet won, exactly one of the values that may be
/// guessed is answered `Correct`: the secret.
pub proof fn exactly_one_value_wins(s: Session)
    requires
        s.wf(),
        !s.finished,
    ensures
        Set::new(|v: int| s.accepts(v) && s.feedback(v) == GuessResult::Correct) == set![
            s.secret as int,
        ],
{
    assert(Set::new(|v: int| s.accepts(v) && s.feedback(v) == GuessResult::Correct) =~= set![
        s.secret as int,
    ]);
}

/// A guess keeps the session well-formed, and changes neither the secret nor
/// the bound.
pub proof fn guess_preserves_bounds(s: Session, value: int)
    requires
        s.wf(),
    ensures
        s.after_guess(value).wf(),
        s.after_guess(value).secret == s.secret,
        s.after_guess(value).max == s.max,
{
}

/// An accepted guess at a game not yet won raises the count by exactly one,
/// as long as the count is below `u32::MAX`, and the reply carries the new
/// count.
pub proof fn open_game_counts_each_guess(s: Session, value: int)
    requires
        s.wf(),
        !s.finished,
        s.accepts(value),
        s.attempts < u32::MAX,
    ensures
        s.after_guess(value).attempts == s.attempts + 1,
        s.reply(value) matches Ok(o) && o.attempts == s.attempts + 1,
        s.after_guess(value).finished <==> value == s.secret,
{
}

/// At a game already won, every accepted guess is answered `Correct` with
/// the count as it stands, whatever the value, and the session stays as it
/// is.
pub proof fn won_game_answers_correct(s: Session, value: int)
    requires
        s.wf(),
        s.finished,
        s.accepts(value),
    ensures
        s.after_guess(value) == s,
        s.reply(value) == Ok::<GuessOutcome, GameError>(
            GuessOutcome { result: GuessResult::Correct, attempts: s.attempts as u32 },
        ),
{
}

/// The count never goes down, whatever is guessed.
pub proof fn attempts_never_decrease(s: Session, values: Seq<int>)
    ensures
        s.after_guesses(values).attempts >= s.attempts,
    decreases values.len(),
{
    if values.len() > 0 {
        attempts_never_decrease(s.after_guess(values.first()), values.drop_first());
    }
}

/// Any sequence of guesses keeps the session well-formed, with the secret and
/// the bound it had.
pub proof fn guesses_preserve_bounds(s: Session, values: Seq<int>)
    requires
        s.wf(),
    ensures
        s.after_guesses(values).wf(),
        s.after_guesses(values).secret == s.secret,
        s.after_guesses(values).max == s.max,
    decreases values.len(),
{
    if values.len() > 0 {
        guesses_preserve_bounds(s.after_guess(values.first()), values.drop_first());
    }
}

/// A game that is won stays won and keeps its count through any sequence of
/// guesses.
pub proof fn won_game_stays_as_it_is(s: Session, values: Seq<int>)
    requires
        s.finished,
    ensures
        s.after_guesses(values) == s,
    decreases values.len(),
{
    if values.len() > 0 {
        won_game_stays_as_it_is(s, values.drop_first());
    }
}

/// Over a sequence of accepted guesses at a game not yet won, the count
/// rises by one with each guess up to and including the first correct one
/// and stays there afterwards, as long as it does not reach `u32::MAX`; the
/// game is won exactly if the secret is among the guesses.
pub proof fn attempts_count_guesses_until_win(s: Session, values: Seq<int>)
    requires
        s.wf(),
        !s.finished,
        all_accepted(s, values),
        s.attempts + values.len() <= u32::MAX,
    ensures
        s.after_guesses(values).attempts == s.attempts + counted_guesses(s.secret, values),
        s.after_guesses(values).finished <==> values.contains(s.secret as int),
        counted_guesses(s.secret, values) <= values.len(),
    decreases values.len(),
{
    if values.len() > 0 {
        let rest = values.drop_first();
        let next = s.after_guess(values.first());
        assert(all_accepted(next, rest)) by {
            assert forall|i: int| 0 <= i < rest.len() implies next.accepts(#[trigger] rest[i]) by {
                assert(rest[i] == values[i + 1]);
            }
        }
        if values.first() == s.secret {
            won_game_stays_as_it_is(next, rest);
        } else {
            attempts_count_guesses_until_win(next, rest);
            if values.contains(s.secret as int) {
                let k = choose|k: int| 0 <= k < values.len() && values[k] == s.secret as int;
                assert(rest[k - 1] == s.secret as int);
            }
        }
    }
}

/// A value outside `1..=max` is refused with `OutOfRange` and leaves the
/// session as it is, won or not.
pub proof fn out_of_range_is_rejected(s: Session, value: int)
    requires
        !s.accepts(value),
    ensures
        s.reply(value) == Err::<GuessOutcome, GameError>(GameError::OutOfRange),
        s.after_guess(value) == s,
{
}

/// Zero and the value just above the bound are outside the range of every
/// session.
pub proof fn zero_and_above_max_are_rejected(s: Session)
    ensures
        s.reply(0) == Err::<GuessOutcome, GameError>(GameError::OutOfRange),
        s.reply(s.max as int + 1) == Err::<GuessOutcome, GameError>(GameError::OutOfRange),
        s.after_guess(0) == s,
        s.after_guess(s.max as int + 1) == s,
{
}

/// Whatever was guessed before, a reset leaves the fresh session of its bound
/// and its new secret: no guess counted, the game not won, and so every
/// guess answered as in a new game. The bound is the requested one, clamped,
/// or the one the session had.
pub proof fn reset_clears_state(s: Session, values: Seq<int>, requested: Option<u32>, secret: nat)
    requires
        s.wf(),
    ensures
        s.after_guesses(values).after_reset(requested, secret) == Session::fresh(
            s.max_after_reset(requested),
            secret,
        ),
        s.after_guesses(values).after_reset(requested, secret).attempts == 0,
        !s.after_guesses(values).after_reset(requested, secret).finished,
        requested is Some ==> s.max_after_reset(requested) == initial_max(requested),
        1 <= s.max_after_reset(requested) <= u32::MAX,
{
    guesses_preserve_bounds(s, values);
}

/// A game whose bound is 1 accepts the value 1 alone, and answers it
/// `Correct`.
pub proof fn single_value_game_is_won_at_once(s: Session)
    requires
        s.wf(),
        s.max == 1,
    ensures
        forall|v: int| s.accepts(v) <==> v == 1,
        s.feedback(1) == GuessResult::Correct,
        s.after_guess(1).finished,
{
}

} // verus!
