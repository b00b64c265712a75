use dice_challenge::errors::AppError;
use dice_challenge::state::{invalid_state_reason, GameState, LoadOutcome, INVALID_STATE};

fn state_with(num_dice: usize, trials: u64, secs: u64, nanos: u32, dice: Vec<u8>) -> GameState {
    let mut state = GameState::new(num_dice, 1.0f64.to_bits());
    state.update(trials, secs, nanos, dice);
    state
}

#[test]
fn test_game_state_new() {
    let state = GameState::new(3, 0.5f64.to_bits());
    assert_eq!(state.num_dice, 3);
    assert_eq!(f64::from_bits(state.interval_bits), 0.5);
    assert_eq!(state.trials_completed, 0);
}

#[test]
fn test_game_state_update() {
    let mut state = GameState::new(2, 1.0f64.to_bits());
    state.update(10, 15, 500_000_000, vec![3, 3]);
    assert_eq!(state.trials_completed, 10);
    assert_eq!(state.elapsed_secs, 15);
    assert_eq!(state.elapsed_nanos, 500_000_000);
    assert_eq!(state.last_dice, vec![3, 3]);
}

#[test]
fn new_state_has_spent_no_time_and_has_no_roll() {
    let state = GameState::new(4, 2.5f64.to_bits());
    assert_eq!(state.elapsed_secs, 0);
    assert_eq!(state.elapsed_nanos, 0);
    assert!(state.last_dice.is_empty());
    assert!(state.is_valid());
}

#[test]
fn update_keeps_dice_and_interval() {
    let mut state = GameState::new(3, 0.25f64.to_bits());
    state.update(4, 1, 2, vec![1, 2, 3]);
    assert_eq!(state.num_dice, 3);
    assert_eq!(f64::from_bits(state.interval_bits), 0.25);
}

#[test]
fn state_needs_two_dice() {
    assert!(!GameState::new(0, 1.0f64.to_bits()).is_valid());
    assert!(!GameState::new(1, 1.0f64.to_bits()).is_valid());
    assert!(GameState::new(2, 1.0f64.to_bits()).is_valid());
}

#[test]
fn state_needs_a_positive_interval() {
    assert!(!GameState::new(2, 0.0f64.to_bits()).is_valid());
    assert!(!GameState::new(2, (-1.0f64).to_bits()).is_valid());
    assert!(!GameState::new(2, f64::INFINITY.to_bits()).is_valid());
    assert!(!GameState::new(2, f64::NAN.to_bits()).is_valid());
    assert!(GameState::new(2, f64::MIN_POSITIVE.to_bits()).is_valid());
    assert!(GameState::new(2, f64::MAX.to_bits()).is_valid());
}

#[test]
fn state_keeps_nanos_below_a_second() {
    assert!(state_with(2, 1, 0, 999_999_999, vec![1, 2]).is_valid());
    assert!(!state_with(2, 1, 0, 1_000_000_000, vec![1, 2]).is_valid());
}

#[test]
fn last_roll_is_empty_or_one_roll_of_the_dice() {
    assert!(state_with(3, 5, 1, 0, vec![]).is_valid());
    assert!(state_with(3, 5, 1, 0, vec![1, 6, 3]).is_valid());
    assert!(!state_with(3, 5, 1, 0, vec![1, 6]).is_valid());
    assert!(!state_with(3, 5, 1, 0, vec![1, 6, 3, 3]).is_valid());
    assert!(!state_with(3, 5, 1, 0, vec![1, 0, 3]).is_valid());
    assert!(!state_with(3, 5, 1, 0, vec![1, 6, 7]).is_valid());
}

#[test]
fn nothing_read_is_absent() {
    assert!(matches!(LoadOutcome::from_read(None), LoadOutcome::Absent));
}

#[test]
fn unreadable_text_is_corrupt_with_its_reason() {
    let outcome = LoadOutcome::from_read(Some(Err(String::from("expected value"))));
    match outcome {
        LoadOutcome::Corrupt(reason) => assert_eq!(reason, "expected value"),
        other => panic!("{:?}", other),
    }
}

#[test]
fn valid_state_read_is_present() {
    let outcome = LoadOutcome::from_read(Some(Ok(state_with(2, 10, 3, 4, vec![5, 6]))));
    match outcome {
        LoadOutcome::Present(state) => {
            assert_eq!(state.num_dice, 2);
            assert_eq!(state.trials_completed, 10);
            assert_eq!(state.elapsed_secs, 3);
            assert_eq!(state.elapsed_nanos, 4);
            assert_eq!(state.last_dice, vec![5, 6]);
        }
        other => panic!("{:?}", other),
    }
}

#[test]
fn invalid_state_read_is_corrupt() {
    let outcome = LoadOutcome::from_read(Some(Ok(state_with(2, 10, 3, 4, vec![5, 9]))));
    match outcome {
        LoadOutcome::Corrupt(reason) => assert_eq!(reason, INVALID_STATE),
        other => panic!("{:?}", other),
    }
    assert_eq!(invalid_state_reason(), INVALID_STATE);
}

#[test]
fn only_an_invalid_configuration_is_fatal() {
    assert!(AppError::InvalidConfiguration { num_dice: 1, interval_bits: 1 }.is_fatal());
    assert!(!AppError::CheckpointCorrupt { reason: String::from("x") }.is_fatal());
    assert!(!AppError::CheckpointMismatch { saved: 2, requested: 3 }.is_fatal());
    assert!(!AppError::CheckpointWriteFailed { reason: String::from("x") }.is_fatal());
}
