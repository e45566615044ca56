//! Tests of the session state manager: the move pipeline, the terminal
//! latch, idempotent rejection, and the structural errors.

use game_core::errors::{GameError, RejectReason};
use game_core::game_traits::{
    GameActionResult, GameConfig, GameEngineRegistry, GameMove, GameStateManager,
};
use game_core::games::register_builtin_games;
use game_core::games::rock_paper_scissors::{encode_choice, RPSChoice, RPSEngine};
use game_core::wagering::WageringConfig;

fn manager() -> GameStateManager<RPSEngine> {
    let mut registry = GameEngineRegistry::new();
    register_builtin_games(&mut registry);
    GameStateManager::new(registry)
}

fn config(wagering: Option<WageringConfig>) -> GameConfig {
    GameConfig {
        game_type_id: "rock_paper_scissors".to_string(),
        max_players: 2,
        min_players: 2,
        timeout_seconds: 300,
        stake_amount: 0,
        custom_config: Vec::new(),
        wagering_config: wagering,
    }
}

fn mv(session: u64, player: u64, move_id: u64, choice: RPSChoice) -> GameMove {
    GameMove {
        game_instance_id: session,
        player_id: player,
        move_id,
        move_data: encode_choice(choice),
        signature: vec![],
        timestamp: 0,
    }
}

#[test]
fn two_player_game_to_decisive_end() {
    // A submits Rock, B submits Scissors: A wins, and a third move is
    // rejected because the game already finished.
    let mut manager = manager();
    let id = manager.create_game(&config(None), &vec![1, 2], 10).unwrap();

    let first = manager.process_move(mv(id, 1, 1, RPSChoice::Rock), 11).unwrap();
    assert_eq!(first, GameActionResult::Success);
    let state = manager.get_game_state(&id).unwrap();
    assert!(!state.is_finished);
    assert_eq!(state.winner, None);
    assert_eq!(state.move_history.len(), 1);
    assert_eq!(state.last_updated, 11);

    let second = manager.process_move(mv(id, 2, 1, RPSChoice::Scissors), 12).unwrap();
    assert_eq!(second, GameActionResult::GameEnded { winner: Some(1) });
    let state = manager.get_game_state(&id).unwrap();
    assert!(state.is_finished);
    assert_eq!(state.winner, Some(1));
    assert_eq!(state.move_history.len(), 2);

    let third = manager.process_move(mv(id, 1, 2, RPSChoice::Paper), 13).unwrap();
    assert_eq!(
        third,
        GameActionResult::Failure(RejectReason::GameAlreadyFinished)
    );
    // The terminal latch: nothing about the finished session changed.
    let state = manager.get_game_state(&id).unwrap();
    assert!(state.is_finished);
    assert_eq!(state.winner, Some(1));
    assert_eq!(state.move_history.len(), 2);
}

#[test]
fn rejected_move_changes_nothing() {
    let mut manager = manager();
    let id = manager.create_game(&config(None), &vec![1, 2], 10).unwrap();
    manager.process_move(mv(id, 1, 1, RPSChoice::Rock), 11).unwrap();

    let before_data = manager.get_game_state(&id).unwrap().state_data.clone();
    let before_len = manager.get_game_state(&id).unwrap().move_history.len();
    let before_updated = manager.get_game_state(&id).unwrap().last_updated;

    // The same player moving again is rejected as data.
    let result = manager.process_move(mv(id, 1, 2, RPSChoice::Paper), 99).unwrap();
    assert_eq!(result, GameActionResult::Failure(RejectReason::AlreadyMoved));

    let state = manager.get_game_state(&id).unwrap();
    assert_eq!(state.state_data, before_data);
    assert_eq!(state.move_history.len(), before_len);
    assert_eq!(state.last_updated, before_updated);
    assert!(!state.is_finished);
}

#[test]
fn tie_ends_with_no_winner() {
    let mut manager = manager();
    let id = manager.create_game(&config(None), &vec![1, 2], 0).unwrap();
    manager.process_move(mv(id, 1, 1, RPSChoice::Rock), 1).unwrap();
    let result = manager.process_move(mv(id, 2, 1, RPSChoice::Rock), 2).unwrap();
    assert_eq!(result, GameActionResult::GameEnded { winner: None });
    let state = manager.get_game_state(&id).unwrap();
    assert!(state.is_finished);
    assert_eq!(state.winner, None);
}

#[test]
fn unknown_game_type_is_rejected() {
    let mut manager = manager();
    let mut bad = config(None);
    bad.game_type_id = "tic_tac_toe".to_string();
    assert!(matches!(
        manager.create_game(&bad, &vec![1, 2], 0),
        Err(GameError::GameTypeNotFound)
    ));
}

#[test]
fn unknown_session_is_rejected() {
    let mut manager = manager();
    assert!(matches!(
        manager.process_move(mv(77, 1, 1, RPSChoice::Rock), 0),
        Err(GameError::GameNotFound)
    ));
    assert!(matches!(
        manager.commit_stake(&77, 1, 10, 0),
        Err(GameError::GameNotFound)
    ));
    assert!(manager.get_game_state(&77).is_none());
}

#[test]
fn bad_player_count_is_rejected() {
    let mut manager = manager();
    assert!(matches!(
        manager.create_game(&config(None), &vec![1], 0),
        Err(GameError::InvalidPlayerCount)
    ));
}

#[test]
fn session_ids_are_fresh() {
    let mut manager = manager();
    let a = manager.create_game(&config(None), &vec![1, 2], 0).unwrap();
    let b = manager.create_game(&config(None), &vec![3, 4], 0).unwrap();
    assert_ne!(a, b);
    assert_eq!(manager.get_game_state(&a).unwrap().players, vec![1, 2]);
    assert_eq!(manager.get_game_state(&b).unwrap().players, vec![3, 4]);
}

#[test]
fn registry_lookup_and_shadowing() {
    let mut registry: GameEngineRegistry<RPSEngine> = GameEngineRegistry::new();
    assert!(registry.get_engine(&"rock_paper_scissors".to_string()).is_none());
    register_builtin_games(&mut registry);
    assert!(registry.get_engine(&"rock_paper_scissors".to_string()).is_some());
    assert!(registry.get_engine(&"tic_tac_toe".to_string()).is_none());
    // Registering the same type id again simply shadows the earlier entry.
    registry.register_engine(RPSEngine::new());
    assert!(registry.get_engine(&"rock_paper_scissors".to_string()).is_some());
}

#[test]
fn activity_stamp_is_recorded() {
    let mut manager = manager();
    let id = manager.create_game(&config(None), &vec![1, 2], 10).unwrap();
    assert_eq!(manager.get_game_state(&id).unwrap().last_activity, 10);
    manager.record_activity(&id, 55);
    assert_eq!(manager.get_game_state(&id).unwrap().last_activity, 55);
    // A miss changes nothing.
    manager.record_activity(&99, 77);
    assert_eq!(manager.get_game_state(&id).unwrap().last_activity, 55);
}

#[test]
fn move_history_records_the_move() {
    let mut manager = manager();
    let id = manager.create_game(&config(None), &vec![1, 2], 0).unwrap();
    let the_move = mv(id, 1, 1, RPSChoice::Paper);
    let payload = the_move.move_data.clone();
    manager.process_move(the_move, 3).unwrap();
    let state = manager.get_game_state(&id).unwrap();
    assert_eq!(state.move_history.len(), 1);
    assert_eq!(state.move_history[0].player_id, 1);
    assert_eq!(state.move_history[0].move_id, 1);
    assert_eq!(state.move_history[0].move_data, payload);
}
