use rand::Rng;
use vstd::prelude::*;
use crate::game::{answer_for, after_guess, GuessResult, GuessingGame};

verus! {

/// The small signed integer that stands for `r` across the player boundary.
pub open spec fn code_of(r: GuessResult) -> i8 {
    match r {
        GuessResult::Lower => -1i8,
        GuessResult::Higher => 1i8,
        GuessResult::Match => 0i8,
    }
}

impl GuessResult {
    /// `-1` for a guess below the secret, `1` above it, `0` on a match.
    pub fn code(self) -> (c: i8)
        ensures
            c == code_of(self),
    {
        match self {
            GuessResult::Lower => -1,
            GuessResult::Higher => 1,
            GuessResult::Match => 0,
        }
    }
}

/// Relies on rand's `thread_rng` and `Rng::gen_range` over `low..=high`:
/// a value in that inclusive range (it panics on an empty range, which
/// `requires` rules out).
#[verifier::external_body]
fn draw_inclusive(low: u32, high: u32) -> (r: u32)
    requires
        low <= high,
    ensures
        low <= r <= high,
{
    rand::thread_rng().gen_range(low..=high)
}

/// The host's random-number import: a uniform draw from `[low, high]`, or
/// `None` when that range is empty.
pub fn rand32(low: u32, high: u32) -> (r: Option<u32>)
    ensures
        r.is_some() == (low <= high),
        r matches Some(v) ==> low <= v <= high,
{
    if low <= high {
        Some(draw_inclusive(low, high))
    } else {
        None
    }
}

/// The host's guess-submission import: submits `n` to `game` and encodes
/// the answer as `-1` (too low), `1` (too high) or `0` (match).
pub fn submit_guess(game: &mut GuessingGame, n: u32) -> (code: i8)
    ensures
        code == code_of(answer_for(n as int, old(game).secret() as int)),
        final(game)@ == after_guess(old(game)@, n),
{
    let r = game.guess(n);
    r.code()
}

} // verus!
