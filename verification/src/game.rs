//! The guessing game's decisions: a secret drawn once per game, and an exact
//! verdict for every guess. The surrounding read-guess-print loop is left to
//! the caller; every judgement it announces is decided here.

use vstd::prelude::*;

verus! {

/// How a guess compares to the secret.
#[derive(Debug, Clone, Copy, PartialEq, Eq, Structural)]
pub enum GuessOutcome {
    /// The guess is below the secret.
    TooSmall,
    /// The guess is above the secret.
    TooBig,
    /// The guess hits the secret.
    Win,
}

/// Relies on `rand::random_range`: the result is uniformly drawn from the
/// given range and always lies within it; an empty range would panic and is
/// excluded.
#[verifier::external_body]
fn draw_secret(low: u32, high: u32) -> (r: u32)
    requires
        low < high,
    ensures
        low <= r < high,
{
    rand::random_range(low..high)
}

/// One round's worth of game state: the secret number.
pub struct GuessGame {
    secret: u32,
}

impl GuessGame {
    /// The number to be guessed.
    pub closed spec fn spec_secret(&self) -> u32 {
        self.secret
    }

    /// Starts a game whose secret lies in `low..high`, whatever the random
    /// source returned.
    pub fn new(low: u32, high: u32) -> (g: GuessGame)
        requires
            low < high,
        ensures
            low <= g.spec_secret() < high,
    {
        GuessGame { secret: draw_secret(low, high) }
    }

    /// The verdict for one guess.
    pub fn judge(&self, guess: u32) -> (o: GuessOutcome)
        ensures
            o == if guess < self.spec_secret() {
                GuessOutcome::TooSmall
            } else if guess > self.spec_secret() {
                GuessOutcome::TooBig
            } else {
                GuessOutcome::Win
            },
    {
        if guess < self.secret {
            GuessOutcome::TooSmall
        } else if guess > self.secret {
            GuessOutcome::TooBig
        } else {
            GuessOutcome::Win
        }
    }
}

} // verus!
