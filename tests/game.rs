use guessing_game::game::{GuessResult, GuessingGame, LoopState, TurnOutcome};
use guessing_game::host::{rand32, submit_guess};

#[test]
fn guess_compares_with_secret_over_small_range() {
    for secret in 0u32..20 {
        for g in 0u32..20 {
            let mut game = GuessingGame::new(secret);
            let r = game.guess(g);
            if g < secret {
                assert_eq!(r, GuessResult::Lower);
                assert!(!game.is_completed());
            } else if g > secret {
                assert_eq!(r, GuessResult::Higher);
                assert!(!game.is_completed());
            } else {
                assert_eq!(r, GuessResult::Match);
                assert!(game.is_completed());
            }
        }
    }
}

#[test]
fn guess_at_extremes() {
    let mut game = GuessingGame::new(u32::MAX);
    assert_eq!(game.guess(0), GuessResult::Lower);
    assert_eq!(game.guess(u32::MAX), GuessResult::Match);
    let mut game = GuessingGame::new(0);
    assert_eq!(game.guess(u32::MAX), GuessResult::Higher);
    assert_eq!(game.guess(0), GuessResult::Match);
}

#[test]
fn matching_twice_stays_completed() {
    let mut game = GuessingGame::new(42);
    assert_eq!(game.guess(42), GuessResult::Match);
    assert!(game.is_completed());
    assert_eq!(game.guess(42), GuessResult::Match);
    assert!(game.is_completed());
}

#[test]
fn completed_never_reverts() {
    let mut game = GuessingGame::new(7);
    assert!(!game.is_completed());
    game.guess(7);
    for g in [0u32, 6, 8, u32::MAX, 7, 3] {
        game.guess(g);
        assert!(game.is_completed());
    }
}

#[test]
fn new_game_is_not_completed() {
    let game = GuessingGame::new(42);
    assert!(!game.is_completed());
    assert_eq!(game.start(), LoopState::Running);
}

#[test]
fn result_codes() {
    assert_eq!(GuessResult::Lower.code(), -1);
    assert_eq!(GuessResult::Higher.code(), 1);
    assert_eq!(GuessResult::Match.code(), 0);
}

#[test]
fn submit_guess_encodes_answers() {
    let mut game = GuessingGame::new(100);
    assert_eq!(submit_guess(&mut game, 99), -1);
    assert_eq!(submit_guess(&mut game, 101), 1);
    assert!(!game.is_completed());
    assert_eq!(submit_guess(&mut game, 100), 0);
    assert!(game.is_completed());
}

#[test]
fn driver_states() {
    let mut game = GuessingGame::new(5);
    let s = game.start();
    assert_eq!(s, LoopState::Running);
    game.guess(4);
    let s = game.after_turn(s, TurnOutcome::Returned);
    assert_eq!(s, LoopState::Running);
    game.guess(5);
    let s = game.after_turn(s, TurnOutcome::Returned);
    assert_eq!(s, LoopState::Done);
    assert_eq!(game.start(), LoopState::Done);
    assert_eq!(game.after_turn(LoopState::Done, TurnOutcome::Trapped), LoopState::Done);
}

#[test]
fn driver_aborts_on_trap() {
    let game = GuessingGame::new(5);
    let s = game.after_turn(LoopState::Running, TurnOutcome::Trapped);
    assert_eq!(s, LoopState::Aborted);
    assert_eq!(game.after_turn(s, TurnOutcome::Returned), LoopState::Aborted);
}

#[test]
fn rand32_stays_in_range() {
    let mut seen_other = false;
    for _ in 0..200 {
        let v = rand32(10, 1000).unwrap();
        assert!(10 <= v && v <= 1000);
        if v != 10 {
            seen_other = true;
        }
    }
    assert!(seen_other);
    assert_eq!(rand32(7, 7), Some(7));
    let w = rand32(0, u32::MAX);
    assert!(w.is_some());
}

#[test]
fn rand32_empty_range() {
    assert_eq!(rand32(5, 4), None);
    assert_eq!(rand32(u32::MAX, 0), None);
}
