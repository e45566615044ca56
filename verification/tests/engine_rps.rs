//! Tests of the reference Rock-Paper-Scissors engine: winner determination,
//! the payload codecs, and direct engine calls.

use game_core::errors::{GameError, RejectReason};
use game_core::game_traits::{GameActionResult, GameConfig, GameEngine, GameMove, GameState};
use game_core::games::rock_paper_scissors::{
    decode_choice, decode_state, encode_choice, encode_state, RPSChoice, RPSEngine, RPSGameState,
    RPSPhase,
};

fn mv(session: u64, player: u64, move_id: u64, choice: RPSChoice) -> GameMove {
    GameMove {
        game_instance_id: session,
        player_id: player,
        move_id,
        move_data: encode_choice(choice),
        signature: vec![],
        timestamp: 0,
    }
}

fn plain_config() -> GameConfig {
    GameConfig {
        game_type_id: "rock_paper_scissors".to_string(),
        max_players: 2,
        min_players: 2,
        timeout_seconds: 300,
        stake_amount: 0,
        custom_config: Vec::new(),
        wagering_config: None,
    }
}

#[test]
fn winner_all_nine_combinations() {
    let engine = RPSEngine::new();
    let cases = [
        (RPSChoice::Rock, RPSChoice::Rock, None),
        (RPSChoice::Rock, RPSChoice::Paper, Some(2)),
        (RPSChoice::Rock, RPSChoice::Scissors, Some(1)),
        (RPSChoice::Paper, RPSChoice::Rock, Some(1)),
        (RPSChoice::Paper, RPSChoice::Paper, None),
        (RPSChoice::Paper, RPSChoice::Scissors, Some(2)),
        (RPSChoice::Scissors, RPSChoice::Rock, Some(2)),
        (RPSChoice::Scissors, RPSChoice::Paper, Some(1)),
        (RPSChoice::Scissors, RPSChoice::Scissors, None),
    ];
    for (one, two, expected) in cases {
        let state = RPSGameState {
            player_one: 1,
            player_two: 2,
            choice_one: Some(one),
            choice_two: Some(two),
            winner: None,
        };
        assert_eq!(engine.determine_winner(&state), expected);
    }
}

#[test]
fn winner_needs_both_choices() {
    let engine = RPSEngine::new();
    let state = RPSGameState {
        player_one: 1,
        player_two: 2,
        choice_one: Some(RPSChoice::Rock),
        choice_two: None,
        winner: None,
    };
    assert_eq!(engine.determine_winner(&state), None);
}

#[test]
fn state_codec_round_trips() {
    let states = [
        RPSGameState {
            player_one: 7,
            player_two: u64::MAX,
            choice_one: None,
            choice_two: None,
            winner: None,
        },
        RPSGameState {
            player_one: 1,
            player_two: 2,
            choice_one: Some(RPSChoice::Rock),
            choice_two: Some(RPSChoice::Scissors),
            winner: Some(1),
        },
        RPSGameState {
            player_one: 0,
            player_two: 0,
            choice_one: Some(RPSChoice::Paper),
            choice_two: None,
            winner: None,
        },
    ];
    for state in states {
        let bytes = encode_state(&state);
        assert_eq!(bytes.len(), 27);
        assert_eq!(decode_state(&bytes), Some(state));
    }
}

#[test]
fn state_decode_rejects_bad_input() {
    // Wrong length.
    assert_eq!(decode_state(&vec![]), None);
    assert_eq!(decode_state(&vec![0u8; 26]), None);
    assert_eq!(decode_state(&vec![0u8; 28]), None);
    // Invalid choice tag.
    let mut bytes = encode_state(&RPSGameState {
        player_one: 1,
        player_two: 2,
        choice_one: None,
        choice_two: None,
        winner: None,
    });
    bytes[16] = 9;
    assert_eq!(decode_state(&bytes), None);
    // Invalid winner tag.
    bytes[16] = 0;
    bytes[18] = 7;
    assert_eq!(decode_state(&bytes), None);
    // Non-canonical absent winner (tag 0 with a non-zero id).
    bytes[18] = 0;
    bytes[19] = 1;
    assert_eq!(decode_state(&bytes), None);
}

#[test]
fn choice_codec_round_trips() {
    for choice in [RPSChoice::Rock, RPSChoice::Paper, RPSChoice::Scissors] {
        let bytes = encode_choice(choice);
        assert_eq!(bytes.len(), 1);
        assert_eq!(decode_choice(&bytes), Some(choice));
    }
    assert_eq!(decode_choice(&vec![3u8]), None);
    assert_eq!(decode_choice(&vec![]), None);
    assert_eq!(decode_choice(&vec![0u8, 0u8]), None);
}

#[test]
fn phase_follows_choices() {
    let mut state = RPSGameState {
        player_one: 1,
        player_two: 2,
        choice_one: None,
        choice_two: None,
        winner: None,
    };
    assert_eq!(state.phase(), RPSPhase::Commitment);
    state.choice_one = Some(RPSChoice::Rock);
    assert_eq!(state.phase(), RPSPhase::Reveal);
    state.choice_two = Some(RPSChoice::Paper);
    assert_eq!(state.phase(), RPSPhase::Finished);
}

#[test]
fn engine_metadata() {
    let engine = RPSEngine::new();
    assert_eq!(engine.game_type_id(), "rock_paper_scissors");
    assert_eq!(engine.display_name(), "Rock-Paper-Scissors");
    assert_eq!(engine.min_players(), 2);
    assert_eq!(engine.max_players(), 2);
    assert!(engine.supports_wagering());
    assert!(engine.default_wagering_config().is_none());
}

#[test]
fn create_game_checks_player_count() {
    let engine = RPSEngine::new();
    let config = plain_config();
    assert!(matches!(
        engine.create_game(&config, &vec![1], 0, 5),
        Err(GameError::InvalidPlayerCount)
    ));
    assert!(matches!(
        engine.create_game(&config, &vec![1, 2, 3], 0, 5),
        Err(GameError::InvalidPlayerCount)
    ));
    let state = engine.create_game(&config, &vec![1, 2], 0, 5).unwrap();
    assert_eq!(state.game_instance_id, 0);
    assert_eq!(state.game_type_id, "rock_paper_scissors");
    assert_eq!(state.players, vec![1, 2]);
    assert!(!state.is_finished);
    assert_eq!(state.winner, None);
    assert_eq!(state.created_at, 5);
    assert_eq!(state.last_updated, 5);
    assert_eq!(state.last_activity, 5);
    assert!(state.wagering_state.is_none());
    assert!(state.move_history.is_empty());
    let decoded = decode_state(&state.state_data).unwrap();
    assert_eq!(decoded.player_one, 1);
    assert_eq!(decoded.player_two, 2);
    assert_eq!(decoded.choice_one, None);
    assert_eq!(decoded.choice_two, None);
    assert_eq!(decoded.winner, None);
}

#[test]
fn validate_move_rejections() {
    let engine = RPSEngine::new();
    let config = plain_config();
    let state = engine.create_game(&config, &vec![1, 2], 0, 0).unwrap();
    // A stranger to the session.
    assert!(matches!(
        engine.validate_move(&state, &mv(0, 9, 1, RPSChoice::Rock)),
        GameActionResult::Failure(RejectReason::PlayerNotInGame)
    ));
    // A payload that does not decode as a choice.
    let bad = GameMove {
        game_instance_id: 0,
        player_id: 1,
        move_id: 1,
        move_data: vec![9],
        signature: vec![],
        timestamp: 0,
    };
    assert!(matches!(
        engine.validate_move(&state, &bad),
        GameActionResult::Failure(RejectReason::MalformedMove)
    ));
    // A session record whose payload was not produced by this engine.
    let corrupt = GameState {
        state_data: vec![1, 2, 3],
        ..engine.create_game(&config, &vec![1, 2], 0, 0).unwrap()
    };
    assert!(matches!(
        engine.validate_move(&corrupt, &mv(0, 1, 1, RPSChoice::Rock)),
        GameActionResult::Failure(RejectReason::StateUnreadable)
    ));
    // A well-formed first move.
    assert!(matches!(
        engine.validate_move(&state, &mv(0, 1, 1, RPSChoice::Rock)),
        GameActionResult::Success
    ));
}
