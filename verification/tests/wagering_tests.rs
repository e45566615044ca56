//! Tests of stake bookkeeping and payout computation: commit rules, the
//! one-way latches, pot conservation, and the tie refund.

use game_core::errors::GameError;
use game_core::game_traits::{GameConfig, GameEngineRegistry, GameMove, GameStateManager};
use game_core::games::register_builtin_games;
use game_core::games::rock_paper_scissors::{encode_choice, RPSChoice, RPSEngine};
use game_core::wagering::{
    compute_default_payouts, WageringConfig, WageringState, WageringType,
};

fn manager() -> GameStateManager<RPSEngine> {
    let mut registry = GameEngineRegistry::new();
    register_builtin_games(&mut registry);
    GameStateManager::new(registry)
}

fn wagering_config(min: u64, max: Option<u64>, equal: bool) -> WageringConfig {
    WageringConfig {
        wagering_type: WageringType::WinnerTakesAll,
        min_stake: min,
        max_stake: max,
        equal_stakes: equal,
    }
}

fn config(wagering: Option<WageringConfig>) -> GameConfig {
    GameConfig {
        game_type_id: "rock_paper_scissors".to_string(),
        max_players: 2,
        min_players: 2,
        timeout_seconds: 300,
        stake_amount: 0,
        custom_config: Vec::new(),
        wagering_config: wagering,
    }
}

fn mv(session: u64, player: u64, move_id: u64, choice: RPSChoice) -> GameMove {
    GameMove {
        game_instance_id: session,
        player_id: player,
        move_id,
        move_data: encode_choice(choice),
        signature: vec![],
        timestamp: 0,
    }
}

#[test]
fn stake_bounds_and_equality() {
    // min 10, max 100, equal stakes: A commits 50; B's 60 is rejected as
    // unequal; B's 50 completes the pot and sets the committed latch.
    let mut manager = manager();
    let id = manager
        .create_game(&config(Some(wagering_config(10, Some(100), true))), &vec![1, 2], 0)
        .unwrap();

    assert!(manager.commit_stake(&id, 1, 50, 5).is_ok());
    {
        let ws = manager.get_game_state(&id).unwrap().wagering_state.as_ref().unwrap();
        assert_eq!(ws.total_pot, 50);
        assert!(!ws.stakes_committed);
        assert_eq!(ws.player_stakes.len(), 1);
        assert_eq!(ws.player_stakes[0].player_id, 1);
        assert_eq!(ws.player_stakes[0].amount, 50);
        assert!(ws.player_stakes[0].committed);
        assert_eq!(ws.player_stakes[0].committed_at, 5);
    }

    assert!(matches!(
        manager.commit_stake(&id, 2, 60, 6),
        Err(GameError::UnequalStake)
    ));
    assert_eq!(
        manager.get_game_state(&id).unwrap().wagering_state.as_ref().unwrap().total_pot,
        50
    );

    assert!(manager.commit_stake(&id, 2, 50, 7).is_ok());
    let ws = manager.get_game_state(&id).unwrap().wagering_state.as_ref().unwrap();
    assert_eq!(ws.total_pot, 100);
    assert!(ws.stakes_committed);
}

#[test]
fn double_commit_fails_and_leaves_pot_alone() {
    let mut manager = manager();
    let id = manager
        .create_game(&config(Some(wagering_config(1, None, false))), &vec![1, 2], 0)
        .unwrap();
    assert!(manager.commit_stake(&id, 1, 30, 0).is_ok());
    assert!(matches!(
        manager.commit_stake(&id, 1, 30, 1),
        Err(GameError::StakeAlreadyCommitted)
    ));
    let ws = manager.get_game_state(&id).unwrap().wagering_state.as_ref().unwrap();
    assert_eq!(ws.total_pot, 30);
    assert_eq!(ws.player_stakes.len(), 1);
}

#[test]
fn stake_rule_rejections() {
    let mut manager = manager();
    let id = manager
        .create_game(&config(Some(wagering_config(10, Some(100), false))), &vec![1, 2], 0)
        .unwrap();
    assert!(matches!(
        manager.commit_stake(&id, 9, 50, 0),
        Err(GameError::PlayerNotInGame)
    ));
    assert!(matches!(
        manager.commit_stake(&id, 1, 9, 0),
        Err(GameError::StakeBelowMinimum)
    ));
    assert!(matches!(
        manager.commit_stake(&id, 1, 101, 0),
        Err(GameError::StakeAboveMaximum)
    ));
    // A session without wagering rejects every stake.
    let plain = manager.create_game(&config(None), &vec![1, 2], 0).unwrap();
    assert!(matches!(
        manager.commit_stake(&plain, 1, 50, 0),
        Err(GameError::WageringNotSupported)
    ));
}

#[test]
fn pot_overflow_is_rejected() {
    let mut manager = manager();
    let id = manager
        .create_game(&config(Some(wagering_config(1, None, false))), &vec![1, 2], 0)
        .unwrap();
    assert!(manager.commit_stake(&id, 1, u64::MAX, 0).is_ok());
    assert!(matches!(
        manager.commit_stake(&id, 2, 1, 0),
        Err(GameError::PotOverflow)
    ));
    let ws = manager.get_game_state(&id).unwrap().wagering_state.as_ref().unwrap();
    assert_eq!(ws.total_pot, u64::MAX);
    assert_eq!(ws.player_stakes.len(), 1);
}

#[test]
fn decisive_winner_takes_whole_pot() {
    let mut manager = manager();
    let id = manager
        .create_game(&config(Some(wagering_config(1, None, true))), &vec![1, 2], 0)
        .unwrap();
    manager.commit_stake(&id, 1, 100, 0).unwrap();
    manager.commit_stake(&id, 2, 100, 0).unwrap();
    manager.process_move(mv(id, 1, 1, RPSChoice::Rock), 1).unwrap();
    manager.process_move(mv(id, 2, 1, RPSChoice::Scissors), 2).unwrap();
    let state = manager.get_game_state(&id).unwrap();
    assert!(state.is_finished);
    assert_eq!(state.winner, Some(1));
    let payouts = state.wagering_state.as_ref().unwrap().payouts.as_ref().unwrap();
    assert_eq!(payouts.len(), 1);
    assert_eq!(payouts[0].player_id, 1);
    assert_eq!(payouts[0].amount, 200);
    assert_eq!(payouts[0].rank, 1);
    assert_eq!(payouts[0].percentage, 100);
}

#[test]
fn tie_refunds_each_stake() {
    // Pot 200 from two equal stakes of 100; a tie pays each player 100 at
    // 50 percent.
    let mut manager = manager();
    let id = manager
        .create_game(&config(Some(wagering_config(1, None, true))), &vec![1, 2], 0)
        .unwrap();
    manager.commit_stake(&id, 1, 100, 0).unwrap();
    manager.commit_stake(&id, 2, 100, 0).unwrap();
    manager.process_move(mv(id, 1, 1, RPSChoice::Rock), 1).unwrap();
    manager.process_move(mv(id, 2, 1, RPSChoice::Rock), 2).unwrap();
    let state = manager.get_game_state(&id).unwrap();
    assert!(state.is_finished);
    assert_eq!(state.winner, None);
    let payouts = state.wagering_state.as_ref().unwrap().payouts.as_ref().unwrap();
    assert_eq!(payouts.len(), 2);
    assert_eq!(payouts[0].player_id, 1);
    assert_eq!(payouts[0].amount, 100);
    assert_eq!(payouts[0].percentage, 50);
    assert_eq!(payouts[1].player_id, 2);
    assert_eq!(payouts[1].amount, 100);
    assert_eq!(payouts[1].percentage, 50);
}

#[test]
fn tie_with_unequal_stakes_refunds_own_stake() {
    // The documented refund policy: each staker gets their own stake back,
    // so the amounts sum to the pot exactly even when stakes differ.
    let mut manager = manager();
    let id = manager
        .create_game(&config(Some(wagering_config(1, None, false))), &vec![1, 2], 0)
        .unwrap();
    manager.commit_stake(&id, 1, 30, 0).unwrap();
    manager.commit_stake(&id, 2, 70, 0).unwrap();
    manager.process_move(mv(id, 1, 1, RPSChoice::Paper), 1).unwrap();
    manager.process_move(mv(id, 2, 1, RPSChoice::Paper), 2).unwrap();
    let state = manager.get_game_state(&id).unwrap();
    let payouts = state.wagering_state.as_ref().unwrap().payouts.as_ref().unwrap();
    assert_eq!(payouts.len(), 2);
    assert_eq!(payouts[0].amount, 30);
    assert_eq!(payouts[1].amount, 70);
    assert_eq!(payouts[0].amount + payouts[1].amount, 100);
    assert_eq!(payouts[0].percentage, 50);
    assert_eq!(payouts[1].percentage, 50);
}

#[test]
fn split_pot_payouts_are_rejected_explicitly() {
    // The built-in rules leave SplitPot to game-specific overrides: the
    // finishing move fails with an explicit error and the stored session is
    // left exactly as it was before that move.
    let mut manager = manager();
    let split = WageringConfig {
        wagering_type: WageringType::SplitPot { winner_percentage: 70, runner_up_percentage: 30 },
        min_stake: 1,
        max_stake: None,
        equal_stakes: false,
    };
    let id = manager.create_game(&config(Some(split)), &vec![1, 2], 0).unwrap();
    manager.commit_stake(&id, 1, 10, 0).unwrap();
    manager.commit_stake(&id, 2, 10, 0).unwrap();
    manager.process_move(mv(id, 1, 1, RPSChoice::Rock), 1).unwrap();
    let result = manager.process_move(mv(id, 2, 1, RPSChoice::Scissors), 2);
    assert!(matches!(result, Err(GameError::PayoutsUnsupported)));
    let state = manager.get_game_state(&id).unwrap();
    assert!(!state.is_finished);
    assert_eq!(state.move_history.len(), 1);
    assert!(state.wagering_state.as_ref().unwrap().payouts.is_none());
}

#[test]
fn default_payout_computation_direct() {
    let mut ws = WageringState::new(wagering_config(1, None, false));
    ws.player_stakes.push(game_core::wagering::PlayerStake {
        player_id: 1,
        amount: 60,
        token_mint: None,
        committed: true,
        committed_at: 0,
    });
    ws.player_stakes.push(game_core::wagering::PlayerStake {
        player_id: 2,
        amount: 40,
        token_mint: None,
        committed: true,
        committed_at: 0,
    });
    ws.total_pot = 100;
    ws.stakes_committed = true;

    let winner_payouts = compute_default_payouts(&ws, Some(2)).unwrap();
    assert_eq!(winner_payouts.len(), 1);
    assert_eq!(winner_payouts[0].player_id, 2);
    assert_eq!(winner_payouts[0].amount, 100);
    assert_eq!(winner_payouts[0].percentage, 100);

    let tie_payouts = compute_default_payouts(&ws, None).unwrap();
    assert_eq!(tie_payouts.len(), 2);
    assert_eq!(tie_payouts[0].amount, 60);
    assert_eq!(tie_payouts[1].amount, 40);
}
