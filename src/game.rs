use vstd::prelude::*;

verus! {

/// How a submitted guess compares with the secret.
#[derive(Clone, Copy, Debug, PartialEq, Eq, Structural)]
pub enum GuessResult {
    Match,
    /// The guess is below the secret.
    Lower,
    /// The guess is above the secret.
    Higher,
}

/// The answer owed to a guess `n` when the secret is `secret`.
pub open spec fn answer_for(n: int, secret: int) -> GuessResult {
    if n < secret {
        GuessResult::Lower
    } else if n > secret {
        GuessResult::Higher
    } else {
        GuessResult::Match
    }
}

/// The abstract state of a game: its secret and its completion flag.
pub struct GameState {
    pub secret: u32,
    pub completed: bool,
}

/// The state after guessing `n` in state `s`.
pub open spec fn after_guess(s: GameState, n: u32) -> GameState {
    GameState { secret: s.secret, completed: s.completed || n == s.secret }
}

/// The state after guessing each of `guesses` in turn, starting from `s`.
pub open spec fn after_guesses(s: GameState, guesses: Seq<u32>) -> GameState
    decreases guesses.len(),
{
    if guesses.len() == 0 {
        s
    } else {
        after_guess(after_guesses(s, guesses.drop_last()), guesses.last())
    }
}

/// The game's secret number and whether it has been guessed.
pub struct GuessingGame {
    number: u32,
    guessed: bool,
}

impl View for GuessingGame {
    type V = GameState;

    closed spec fn view(&self) -> GameState {
        GameState { secret: self.number, completed: self.guessed }
    }
}

impl GuessingGame {
    /// The secret number, fixed at construction.
    pub open spec fn secret(&self) -> u32 {
        self@.secret
    }

    /// Whether some submitted guess has equalled the secret.
    pub open spec fn completed(&self) -> bool {
        self@.completed
    }

    /// A game over `number` in which nothing has been guessed yet.
    pub fn new(number: u32) -> (g: GuessingGame)
        ensures
            g@ == (GameState { secret: number, completed: false }),
    {
        GuessingGame { number, guessed: false }
    }

    /// Compares `n` with the secret; a match marks the game as completed.
    pub fn guess(&mut self, n: u32) -> (r: GuessResult)
        ensures
            r == answer_for(n as int, old(self).secret() as int),
            final(self)@ == after_guess(old(self)@, n),
    {
        if n < self.number {
            return GuessResult::Lower;
        }
        if n > self.number {
            return GuessResult::Higher;
        }
        self.guessed = true;
        GuessResult::Match
    }

    /// Whether the secret has been guessed.
    pub fn is_completed(&self) -> (r: bool)
        ensures
            r == self.completed(),
    {
        self.guessed
    }
}

/// Guessing the secret twice completes the game both times, and both
/// guesses are answered with a match.
pub proof fn lemma_match_idempotent(s: GameState)
    ensures
        answer_for(s.secret as int, s.secret as int) == GuessResult::Match,
        after_guess(s, s.secret).completed,
        after_guess(after_guess(s, s.secret), s.secret).completed,
        after_guess(after_guess(s, s.secret), s.secret) == after_guess(s, s.secret),
{
}

/// Once a game is completed, no further guesses make it incomplete again,
/// and none changes its secret.
pub proof fn lemma_completed_stays(s: GameState, guesses: Seq<u32>)
    requires
        s.completed,
    ensures
        after_guesses(s, guesses).completed,
        after_guesses(s, guesses).secret == s.secret,
    decreases guesses.len(),
{
    if guesses.len() > 0 {
        lemma_completed_stays(s, guesses.drop_last());
    }
}

/// A fresh game is completed after a run of guesses exactly when one of
/// them equals the secret.
pub proof fn lemma_completed_iff_guessed(secret: u32, guesses: Seq<u32>)
    ensures
        after_guesses(GameState { secret, completed: false }, guesses).completed
            <==> exists|i: int| 0 <= i < guesses.len() && guesses[i] == secret,
        after_guesses(GameState { secret, completed: false }, guesses).secret == secret,
    decreases guesses.len(),
{
    let s = GameState { secret, completed: false };
    if guesses.len() > 0 {
        let init = guesses.drop_last();
        lemma_completed_iff_guessed(secret, init);
        if after_guesses(s, guesses).completed {
            if after_guesses(s, init).completed {
                let i = choose|i: int| 0 <= i < init.len() && init[i] == secret;
                assert(guesses[i] == secret);
            } else {
                assert(guesses[guesses.len() - 1] == secret);
            }
        }
        if exists|i: int| 0 <= i < guesses.len() && guesses[i] == secret {
            let i = choose|i: int| 0 <= i < guesses.len() && guesses[i] == secret;
            if i < guesses.len() - 1 {
                assert(init[i] == secret);
            }
        }
    }
}

/// Where the driver of a game stands.
#[derive(Clone, Copy, Debug, PartialEq, Eq, Structural)]
pub enum LoopState {
    /// More turns are to be taken.
    Running,
    /// The secret has been guessed.
    Done,
    /// A turn failed; no more turns are taken.
    Aborted,
}

/// How one turn of the player ended.
#[derive(Clone, Copy, Debug, PartialEq, Eq, Structural)]
pub enum TurnOutcome {
    /// The player's entry point returned.
    Returned,
    /// The player faulted.
    Trapped,
}

/// The driver's state after a turn that ended with `outcome`, when the game
/// then reads as `completed`.
pub open spec fn state_after_turn(state: LoopState, outcome: TurnOutcome, completed: bool) -> LoopState {
    match state {
        LoopState::Running => match outcome {
            TurnOutcome::Trapped => LoopState::Aborted,
            TurnOutcome::Returned => if completed {
                LoopState::Done
            } else {
                LoopState::Running
            },
        },
        _ => state,
    }
}

impl GuessingGame {
    /// The driver's state before the first turn: a turn is due unless the
    /// secret has already been guessed.
    pub fn start(&self) -> (s: LoopState)
        ensures
            s == (if self.completed() { LoopState::Done } else { LoopState::Running }),
    {
        if self.guessed {
            LoopState::Done
        } else {
            LoopState::Running
        }
    }

    /// The driver's state once a turn taken in `state` has ended with
    /// `outcome`; `Done` and `Aborted` are final.
    pub fn after_turn(&self, state: LoopState, outcome: TurnOutcome) -> (s: LoopState)
        ensures
            s == state_after_turn(state, outcome, self.completed()),
    {
        match state {
            LoopState::Running => match outcome {
                TurnOutcome::Trapped => LoopState::Aborted,
                TurnOutcome::Returned => {
                    if self.guessed {
                        LoopState::Done
                    } else {
                        LoopState::Running
                    }
                },
            },
            _ => state,
        }
    }
}

} // verus!
