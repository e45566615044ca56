//! The outward-facing entry point of the session core.
//!
//! External callers (transport, signing, settlement) create sessions and
//! submit moves through a [`PlayChannel`].  The channel resolves the
//! effective wagering configuration at creation, stamps session activity on
//! every submitted move, and records each completed session so that a
//! settlement collaborator can read the finished state (including computed
//! payouts) and act on it outside the core.

use crate::errors::GameError;
use crate::game_traits::{
    GameActionResult, GameConfig, GameConfigModel, GameEngine, GameEngineRegistry, GameInstanceId,
    GameMove, GameState, GameStateManager, GameStateModel, GameTypeId,
};
use crate::wagering::{PlayerId, WageringConfig};
use vstd::prelude::*;

verus! {

/// The wagering configuration a new session runs under: an explicit
/// override is honoured only if the engine supports wagering, otherwise the
/// engine's own default applies, and a non-wagering engine yields none.
pub open spec fn effective_wagering_config<E: GameEngine>(
    eng: E,
    wagering_override: Option<WageringConfig>,
) -> Result<Option<WageringConfig>, GameError> {
    match wagering_override {
        Some(cfg) => if eng.spec_supports_wagering() {
            Ok(Some(cfg))
        } else {
            Err(GameError::WageringNotSupported)
        },
        None => if eng.spec_supports_wagering() {
            Ok(eng.spec_default_wagering_config())
        } else {
            Ok(None)
        },
    }
}

/// The session configuration the channel builds for a new session.
pub open spec fn channel_config_model(
    game_type_id: Seq<char>,
    min_players: u8,
    max_players: u8,
    stake_amount: u64,
    wagering_config: Option<WageringConfig>,
) -> GameConfigModel {
    GameConfigModel {
        game_type_id,
        max_players,
        min_players,
        timeout_seconds: 300,
        stake_amount,
        custom_config: Seq::empty(),
        wagering_config,
    }
}

/// The facade external callers use to run game sessions.
pub struct PlayChannel<E: GameEngine> {
    /// The session state manager; sole owner of all live session state.
    game_manager: GameStateManager<E>,
    /// Completed sessions with their winners, in completion order, for the
    /// settlement collaborator to pick up.
    completed_games: Vec<(GameInstanceId, Option<PlayerId>)>,
}

impl<E: GameEngine> PlayChannel<E> {
    /// The stored sessions, keyed by instance id.
    pub closed spec fn spec_games(&self) -> Map<GameInstanceId, GameState> {
        self.game_manager.spec_games()
    }

    /// The engine registered under `type_id`.
    pub closed spec fn spec_engine(&self, type_id: Seq<char>) -> Option<E> {
        self.game_manager.spec_engine(type_id)
    }

    /// The id the next created session will receive.
    pub closed spec fn spec_next_id(&self) -> GameInstanceId {
        self.game_manager.spec_next_id()
    }

    /// The completion hook's record: finished sessions and their winners.
    pub closed spec fn spec_completed(&self) -> Seq<(GameInstanceId, Option<PlayerId>)> {
        self.completed_games@
    }

    /// The channel's invariant: its manager's.
    pub closed spec fn wf(&self) -> bool {
        self.game_manager.wf()
    }

    /// A channel with no engines registered; sessions can be created only
    /// after a registry is supplied via [`PlayChannel::with_registry`].
    pub fn new() -> (r: Self)
        ensures
            r.wf(),
            r.spec_games() == Map::<GameInstanceId, GameState>::empty(),
            forall|type_id: Seq<char>| r.spec_engine(type_id) is None,
            r.spec_next_id() == 0,
            r.spec_completed() == Seq::<(GameInstanceId, Option<PlayerId>)>::empty(),
    {
        let registry = GameEngineRegistry::<E>::new();
        PlayChannel { game_manager: GameStateManager::new(registry), completed_games: Vec::new() }
    }

    /// A channel over a pre-configured engine registry.
    pub fn with_registry(registry: GameEngineRegistry<E>) -> (r: Self)
        ensures
            r.wf(),
            r.spec_games() == Map::<GameInstanceId, GameState>::empty(),
            forall|type_id: Seq<char>| r.spec_engine(type_id) == registry.spec_get(type_id),
            r.spec_next_id() == 0,
            r.spec_completed() == Seq::<(GameInstanceId, Option<PlayerId>)>::empty(),
    {
        PlayChannel { game_manager: GameStateManager::new(registry), completed_games: Vec::new() }
    }

    /// Creates a session of the given game type: resolves the engine,
    /// determines the effective wagering configuration (see
    /// [`effective_wagering_config`]), builds the session configuration
    /// with a 300-second advisory timeout, and delegates to the manager.
    pub fn create_game(
        &mut self,
        game_type: &GameTypeId,
        players: &Vec<PlayerId>,
        stake_amount: u64,
        wagering_config: Option<WageringConfig>,
        now: u64,
    ) -> (r: Result<GameInstanceId, GameError>)
        requires
            old(self).wf(),
        ensures
            final(self).wf(),
            forall|type_id: Seq<char>|
                final(self).spec_engine(type_id) == old(self).spec_engine(type_id),
            final(self).spec_completed() == old(self).spec_completed(),
            match old(self).spec_engine(game_type@) {
                None => r == Err::<GameInstanceId, GameError>(GameError::GameTypeNotFound)
                    && final(self).spec_games() == old(self).spec_games()
                    && final(self).spec_next_id() == old(self).spec_next_id(),
                Some(eng) => match effective_wagering_config(eng, wagering_config) {
                    Err(e) => r == Err::<GameInstanceId, GameError>(e) && final(self).spec_games()
                        == old(self).spec_games() && final(self).spec_next_id() == old(
                        self,
                    ).spec_next_id(),
                    Ok(wcfg) => ({
                        let cfgm = channel_config_model(
                            game_type@,
                            eng.spec_min_players(),
                            eng.spec_max_players(),
                            stake_amount,
                            wcfg,
                        );
                        match r {
                            Ok(id) => {
                                &&& id == old(self).spec_next_id()
                                &&& !old(self).spec_games().contains_key(id)
                                &&& final(self).spec_games().contains_key(id)
                                &&& eng.spec_create_game(cfgm, players@, id, now) == Ok::<
                                    GameStateModel,
                                    GameError,
                                >(final(self).spec_games()[id]@)
                                &&& final(self).spec_games() == old(self).spec_games().insert(
                                    id,
                                    final(self).spec_games()[id],
                                )
                                &&& final(self).spec_next_id() == old(self).spec_next_id() + 1
                            },
                            Err(e) => {
                                &&& final(self).spec_games() == old(self).spec_games()
                                &&& final(self).spec_next_id() == old(self).spec_next_id()
                                &&& if old(self).spec_next_id() == u64::MAX {
                                    e == GameError::SessionLimitReached
                                } else {
                                    eng.spec_create_game(
                                        cfgm,
                                        players@,
                                        old(self).spec_next_id(),
                                        now,
                                    ) == Err::<GameStateModel, GameError>(e)
                                }
                            },
                        }
                    }),
                },
            },
    {
        let (supports, min_players, max_players, default_cfg) = match self
            .game_manager
            .get_registry()
            .get_engine(game_type) {
            None => {
                return Err(GameError::GameTypeNotFound);
            },
            Some(engine) => (
                engine.supports_wagering(),
                engine.min_players(),
                engine.max_players(),
                engine.default_wagering_config(),
            ),
        };
        let final_wagering_config = match wagering_config {
            Some(cfg) => {
                if !supports {
                    return Err(GameError::WageringNotSupported);
                }
                Some(cfg)
            },
            None => if supports {
                default_cfg
            } else {
                None
            },
        };
        let config = GameConfig {
            game_type_id: game_type.clone(),
            max_players,
            min_players,
            timeout_seconds: 300,
            stake_amount,
            custom_config: Vec::new(),
            wagering_config: final_wagering_config,
        };
        let ghost eng = old(self).spec_engine(game_type@)->Some_0;
        assert(config@ =~= channel_config_model(
            game_type@,
            eng.spec_min_players(),
            eng.spec_max_players(),
            stake_amount,
            effective_wagering_config(eng, wagering_config)->Ok_0,
        ));
        self.game_manager.create_game(&config, players, now)
    }

    /// Submits a move: stamps the session's activity with the caller's
    /// clock, forwards the move to the manager's pipeline, and, when the
    /// move ends the game, invokes the completion hook, which records the
    /// session and winner for the settlement collaborator.
    pub fn process_game_move(&mut self, game_move: GameMove, now: u64) -> (r: Result<
        GameActionResult,
        GameError,
    >)
        requires
            old(self).wf(),
        ensures
            final(self).wf(),
            forall|type_id: Seq<char>|
                final(self).spec_engine(type_id) == old(self).spec_engine(type_id),
            final(self).spec_next_id() == old(self).spec_next_id(),
            // The completion hook fires exactly on a game-ending move.
            match r {
                Ok(GameActionResult::GameEnded { winner }) => final(self).spec_completed() == old(
                    self,
                ).spec_completed().push((game_move.game_instance_id, winner)),
                _ => final(self).spec_completed() == old(self).spec_completed(),
            },
            forall|other: GameInstanceId|
                other != game_move.game_instance_id ==> final(self).spec_games().contains_key(other)
                    == old(self).spec_games().contains_key(other) && (old(
                    self,
                ).spec_games().contains_key(other) ==> final(self).spec_games()[other] == old(
                    self,
                ).spec_games()[other]),
            !old(self).spec_games().contains_key(game_move.game_instance_id) ==> r == Err::<
                GameActionResult,
                GameError,
            >(GameError::GameNotFound) && final(self).spec_games() == old(self).spec_games(),
            old(self).spec_games().contains_key(game_move.game_instance_id) ==> ({
                // The record the pipeline works on: the stored one with its
                // activity stamped.
                let pre = GameStateModel {
                    last_activity: now,
                    ..old(self).spec_games()[game_move.game_instance_id]@
                };
                &&& final(self).spec_games().contains_key(game_move.game_instance_id)
                &&& (pre.is_finished ==> ({
                    &&& final(self).spec_games()[game_move.game_instance_id]@ == pre
                    &&& r matches Ok(res) && res is Failure
                }))
                &&& old(self).spec_engine(pre.game_type_id) matches Some(eng) && ({
                    let v = eng.spec_validate_move(pre, game_move@);
                    &&& v is Failure ==> final(self).spec_games()[game_move.game_instance_id]@
                        == pre && r == Ok::<GameActionResult, GameError>(v)
                    &&& !(v is Failure) ==> match eng.spec_apply_move(pre, game_move@) {
                        Err(e) => final(self).spec_games()[game_move.game_instance_id]@ == pre && r
                            == Err::<GameActionResult, GameError>(e),
                        Ok(out) => ({
                            let st1 = GameStateModel {
                                state_data: out.state_data,
                                is_finished: out.is_finished,
                                current_player: out.current_player,
                                last_updated: now,
                                ..pre
                            };
                            let w = eng.spec_winner(st1);
                            let st2 = if out.is_finished {
                                GameStateModel { winner: w, ..st1 }
                            } else {
                                st1
                            };
                            if out.is_finished && crate::game_traits::payouts_due(st2) {
                                match eng.spec_calculate_payouts(st2) {
                                    Err(e) => final(self).spec_games()[game_move.game_instance_id]@
                                        == pre && r == Err::<GameActionResult, GameError>(e),
                                    Ok(ps) => {
                                        &&& final(self).spec_games()[game_move.game_instance_id]@
                                            == crate::game_traits::with_move_appended(
                                            crate::game_traits::with_payouts_written(st2, ps),
                                            game_move@,
                                        )
                                        &&& r == Ok::<GameActionResult, GameError>(
                                            GameActionResult::GameEnded { winner: w },
                                        )
                                    },
                                }
                            } else {
                                &&& final(self).spec_games()[game_move.game_instance_id]@
                                    == crate::game_traits::with_move_appended(st2, game_move@)
                                &&& r == Ok::<GameActionResult, GameError>(
                                    if out.is_finished {
                                        GameActionResult::GameEnded { winner: w }
                                    } else {
                                        v
                                    },
                                )
                            }
                        }),
                    }
                })
            }),
    {
        let id = game_move.game_instance_id;
        self.game_manager.record_activity(&id, now);
        let result = match self.game_manager.process_move(game_move, now) {
            Err(e) => {
                return Err(e);
            },
            Ok(res) => res,
        };
        if let GameActionResult::GameEnded { winner } = result {
            self.handle_game_completion(id, winner);
        }
        Ok(result)
    }

    /// Commits a player's stake for a session; see
    /// [`GameStateManager::commit_stake`] for the exact rules.
    pub fn commit_stake(
        &mut self,
        game_instance_id: &GameInstanceId,
        player_id: PlayerId,
        amount: u64,
        now: u64,
    ) -> (r: Result<(), GameError>)
        requires
            old(self).wf(),
        ensures
            final(self).wf(),
            forall|type_id: Seq<char>|
                final(self).spec_engine(type_id) == old(self).spec_engine(type_id),
            final(self).spec_next_id() == old(self).spec_next_id(),
            final(self).spec_completed() == old(self).spec_completed(),
            r is Err ==> final(self).spec_games() == old(self).spec_games(),
            forall|other: GameInstanceId|
                other != *game_instance_id ==> final(self).spec_games().contains_key(other) == old(
                    self,
                ).spec_games().contains_key(other) && (old(self).spec_games().contains_key(other)
                    ==> final(self).spec_games()[other] == old(self).spec_games()[other]),
            !old(self).spec_games().contains_key(*game_instance_id) ==> r == Err::<(), GameError>(
                GameError::GameNotFound,
            ),
            old(self).spec_games().contains_key(*game_instance_id) ==> ({
                let pre = old(self).spec_games()[*game_instance_id]@;
                &&& old(self).spec_engine(pre.game_type_id) matches Some(eng) && ({
                    let sv = eng.spec_validate_stake(pre, player_id, amount);
                    &&& sv matches Err(e) ==> r == Err::<(), GameError>(e)
                    &&& sv is Ok ==> (pre.wagering_state matches Some(wa) && (
                    if amount > u64::MAX - wa.total_pot {
                        r == Err::<(), GameError>(GameError::PotOverflow)
                    } else {
                        &&& r is Ok
                        &&& final(self).spec_games().contains_key(*game_instance_id)
                        &&& final(self).spec_games()[*game_instance_id]@
                            == crate::game_traits::with_stake_committed(
                            pre,
                            player_id,
                            amount,
                            now,
                        )
                    }))
                })
                &&& pre.wagering_state matches Some(wa) ==> (crate::wagering::spec_has_stake(
                    wa.player_stakes,
                    player_id,
                ) ==> r is Err)
            }),
    {
        self.game_manager.commit_stake(game_instance_id, player_id, amount, now)
    }

    /// Read access to one session's record.
    pub fn get_game_state(&self, game_instance_id: &GameInstanceId) -> (r: Option<&GameState>)
        ensures
            match r {
                Some(st) => self.spec_games().contains_key(*game_instance_id) && *st
                    == self.spec_games()[*game_instance_id],
                None => !self.spec_games().contains_key(*game_instance_id),
            },
    {
        self.game_manager.get_game_state(game_instance_id)
    }

    /// The sessions the completion hook has recorded, with their winners,
    /// in completion order.
    pub fn completed_games(&self) -> (r: &Vec<(GameInstanceId, Option<PlayerId>)>)
        ensures
            r@ == self.spec_completed(),
    {
        &self.completed_games
    }

    /// The completion hook: records a finished session and its winner for
    /// the settlement collaborator, which reads the finished state
    /// (including computed payouts) and settles outside the core.
    fn handle_game_completion(&mut self, game_instance_id: GameInstanceId, winner: Option<PlayerId>)
        ensures
            final(self).game_manager == old(self).game_manager,
            final(self).completed_games@ == old(self).completed_games@.push(
                (game_instance_id, winner),
            ),
    {
        self.completed_games.push((game_instance_id, winner));
    }
}

} // verus!
