use vstd::prelude::*;
use crate::game::{answer_for, after_guess, GuessingGame};
use crate::host::{code_of, rand32, submit_guess};

verus! {

/// The reference player's search window: the inclusive range `[lower, upper]`
/// in which it still looks for the secret.
#[derive(Clone, Copy, Debug, PartialEq, Eq, Structural)]
pub struct SearchWindow {
    pub lower: u32,
    pub upper: u32,
}

impl SearchWindow {
    /// Whether `n` lies in the window.
    pub open spec fn contains(self, n: int) -> bool {
        self.lower <= n <= self.upper
    }

    /// How many values lie in the window.
    pub open spec fn size(self) -> int {
        self.upper - self.lower + 1
    }

    /// The window after the answer `code` to the guess `candidate`: above a
    /// too-high guess it shrinks to below it, below a too-low guess to above
    /// it, and a match leaves it as it was.
    pub open spec fn narrowed(self, candidate: u32, code: i8) -> SearchWindow {
        if code > 0 {
            SearchWindow { lower: self.lower, upper: (candidate - 1) as u32 }
        } else if code < 0 {
            SearchWindow { lower: (candidate + 1) as u32, upper: self.upper }
        } else {
            self
        }
    }

    /// The window over every `u32`.
    pub fn full() -> (w: SearchWindow)
        ensures
            w.lower == 0,
            w.upper == u32::MAX,
    {
        SearchWindow { lower: 0, upper: u32::MAX }
    }

    /// Narrows the window by the answer `code` to the guess `candidate`.
    pub fn narrow(&mut self, candidate: u32, code: i8)
        requires
            code > 0 ==> candidate > 0,
            code < 0 ==> candidate < u32::MAX,
        ensures
            *final(self) == old(self).narrowed(candidate, code),
    {
        if code > 0 {
            self.upper = candidate - 1;
        }
        if code < 0 {
            self.lower = candidate + 1;
        }
    }

    /// One turn of the reference player: draws a candidate from the window,
    /// submits it to `game`, and narrows the window by the answer.
    pub fn turn(&mut self, game: &mut GuessingGame)
        requires
            old(self).contains(old(game).secret() as int),
        ensures
            exists|r: u32|
                #![trigger old(self).narrowed(r, code_of(answer_for(r as int, old(game).secret() as int)))]
                old(self).contains(r as int)
                && final(game)@ == after_guess(old(game)@, r)
                && *final(self) == old(self).narrowed(r, code_of(answer_for(r as int, old(game).secret() as int))),
            final(game).secret() == old(game).secret(),
            final(self).contains(final(game).secret() as int),
            final(game).completed() || final(self).size() < old(self).size(),
            old(game).completed() ==> final(game).completed(),
    {
        let r = match rand32(self.lower, self.upper) {
            Some(v) => v,
            None => self.lower,
        };
        let code = submit_guess(game, r);
        proof {
            lemma_narrow_keeps_secret(*self, r, game.secret());
        }
        self.narrow(r, code);
    }
}

/// Narrowing a window that holds the secret by the honest answer to a guess
/// drawn from it keeps the secret inside, so the window never inverts; and
/// unless the guess matched, the window gets smaller.
pub proof fn lemma_narrow_keeps_secret(w: SearchWindow, candidate: u32, secret: u32)
    requires
        w.contains(secret as int),
        w.contains(candidate as int),
    ensures
        ({
            let code = code_of(answer_for(candidate as int, secret as int));
            let n = w.narrowed(candidate, code);
            &&& code > 0 ==> candidate > 0
            &&& code < 0 ==> candidate < u32::MAX
            &&& n.contains(secret as int)
            &&& n.lower <= n.upper
            &&& candidate != secret ==> n.size() < w.size()
            &&& candidate == secret ==> n == w
        }),
{
}

/// Plays the reference player against `game` from the full window until the
/// secret is guessed; returns how many turns it took, which is at most the
/// number of `u32` values.
pub fn play(game: &mut GuessingGame) -> (turns: u64)
    ensures
        final(game).secret() == old(game).secret(),
        final(game).completed(),
        turns <= u32::MAX as int + 1,
        old(game).completed() ==> turns == 0,
{
    let mut window = SearchWindow::full();
    let mut turns: u64 = 0;
    while !game.is_completed()
        invariant
            game.secret() == old(game).secret(),
            window.contains(game.secret() as int),
            !game.completed() ==> turns + window.size() <= u32::MAX as int + 1,
            turns <= u32::MAX as int + 1,
            old(game).completed() ==> game.completed() && turns == 0,
        decreases 2 * window.size() + (if game.completed() { 0int } else { 1int }),
    {
        window.turn(game);
        turns = turns + 1;
    }
    turns
}

} // verus!
