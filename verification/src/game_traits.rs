//! The game-engine capability contract, the engine registry, and the
//! session state manager.
//!
//! The manager knows nothing about any specific game's rules: every rule is
//! behind the [`GameEngine`] contract, whose specification functions
//! (`spec_*`) name the engine's behaviour so that the manager's own
//! contracts can pin down exactly what each pipeline step stores.

use crate::errors::{GameError, RejectReason};
use crate::wagering::{spec_sum_stakes, Payout, PlayerStake, WageringConfig, WageringState};
use std::collections::HashMap;
use vstd::prelude::*;

pub use crate::wagering::PlayerId;

verus! {

/// Unique identifier of one session (one instance of a game being played).
pub type GameInstanceId = u64;

/// Identifier of a game type; each registered engine owns one.
pub type GameTypeId = String;

/// Move sequence number within a session.
pub type MoveId = u64;

/// Outcome of validating or processing one move.  Rejections are data, not
/// errors: the caller branches on the variant.
#[derive(Clone, Copy, Debug, PartialEq, Eq)]
pub enum GameActionResult {
    /// The move is legal (and, when returned from move processing, was applied).
    Success,
    /// The move is illegal; the stored session state is unchanged.
    Failure(RejectReason),
    /// The move ended the game, with the given winner (`None` for a tie).
    GameEnded { winner: Option<PlayerId> },
    /// The move needs additional data before it can be validated.
    RequiresData(RejectReason),
}

/// A player-submitted action, opaque to the session core: the payload bytes
/// are decoded only by the engine that owns the session's game type, and the
/// authentication proof is checked by an external collaborator before the
/// move reaches the core.
#[derive(Debug)]
pub struct GameMove {
    pub game_instance_id: GameInstanceId,
    pub player_id: PlayerId,
    pub move_id: MoveId,
    /// Engine-encoded move payload.
    pub move_data: Vec<u8>,
    /// Opaque authentication proof; never decoded by the core.
    pub signature: Vec<u8>,
    /// Clock reading supplied by the caller at submission.
    pub timestamp: u64,
}

/// What applying one validated move changes: the engine's new payload and
/// termination verdict.  The session manager assembles the next session
/// record from this at its single commit point, so the engine never touches
/// the stored record and a failing pipeline step leaves the store unchanged.
#[derive(Debug)]
pub struct MoveOutcome {
    /// The next game-specific payload, in the engine-owned encoding.
    pub state_data: Vec<u8>,
    /// Whether the move concluded the session.
    pub is_finished: bool,
    /// The next player to act, for games that track one.
    pub current_player: Option<PlayerId>,
}

/// Creation-time parameters of a session.  Immutable once the session exists.
#[derive(Debug)]
pub struct GameConfig {
    pub game_type_id: GameTypeId,
    /// Largest admissible player count, inclusive.
    pub max_players: u8,
    /// Smallest admissible player count, inclusive.
    pub min_players: u8,
    /// Advisory inactivity bound in seconds; the core stores it but never
    /// evicts sessions itself.
    pub timeout_seconds: u64,
    pub stake_amount: u64,
    /// Free-form engine-specific configuration entries.
    pub custom_config: Vec<(String, String)>,
    /// When present, the session wagers under this configuration.
    pub wagering_config: Option<WageringConfig>,
}

/// The aggregate record of one session.
#[derive(Debug)]
pub struct GameState {
    pub game_instance_id: GameInstanceId,
    pub game_type_id: GameTypeId,
    /// Session members, in joining order.
    pub players: Vec<PlayerId>,
    /// Engine-defined; stays `None` for simultaneous-move games.
    pub current_player: Option<PlayerId>,
    /// Game-specific payload in the engine-owned encoding.
    pub state_data: Vec<u8>,
    /// Every accepted move, in application order.
    pub move_history: Vec<GameMove>,
    /// Terminal latch: once set, no move changes this session again.
    pub is_finished: bool,
    /// The winner of a finished session; `None` while running or on a tie.
    pub winner: Option<PlayerId>,
    pub created_at: u64,
    pub last_updated: u64,
    /// Wagering sub-state; `None` for sessions that do not wager.
    pub wagering_state: Option<WageringState>,
    pub last_activity: u64,
}

/// The mathematical model of a [`GameMove`]: the same data with the byte
/// payloads as sequences.
#[verifier::ext_equal]
pub ghost struct GameMoveModel {
    pub game_instance_id: GameInstanceId,
    pub player_id: PlayerId,
    pub move_id: MoveId,
    pub move_data: Seq<u8>,
    pub signature: Seq<u8>,
    pub timestamp: u64,
}

impl View for GameMove {
    type V = GameMoveModel;

    open spec fn view(&self) -> GameMoveModel {
        GameMoveModel {
            game_instance_id: self.game_instance_id,
            player_id: self.player_id,
            move_id: self.move_id,
            move_data: self.move_data@,
            signature: self.signature@,
            timestamp: self.timestamp,
        }
    }
}

/// The mathematical model of a [`MoveOutcome`].
#[verifier::ext_equal]
pub ghost struct MoveOutcomeModel {
    pub state_data: Seq<u8>,
    pub is_finished: bool,
    pub current_player: Option<PlayerId>,
}

impl View for MoveOutcome {
    type V = MoveOutcomeModel;

    open spec fn view(&self) -> MoveOutcomeModel {
        MoveOutcomeModel {
            state_data: self.state_data@,
            is_finished: self.is_finished,
            current_player: self.current_player,
        }
    }
}

/// The mathematical model of a [`GameConfig`].
#[verifier::ext_equal]
pub ghost struct GameConfigModel {
    pub game_type_id: Seq<char>,
    pub max_players: u8,
    pub min_players: u8,
    pub timeout_seconds: u64,
    pub stake_amount: u64,
    pub custom_config: Seq<(String, String)>,
    pub wagering_config: Option<WageringConfig>,
}

impl View for GameConfig {
    type V = GameConfigModel;

    open spec fn view(&self) -> GameConfigModel {
        GameConfigModel {
            game_type_id: self.game_type_id@,
            max_players: self.max_players,
            min_players: self.min_players,
            timeout_seconds: self.timeout_seconds,
            stake_amount: self.stake_amount,
            custom_config: self.custom_config@,
            wagering_config: self.wagering_config,
        }
    }
}

/// The mathematical model of a [`GameState`]: every byte payload as a
/// sequence, the history as a sequence of move models, and the wagering
/// sub-state as its model.
#[verifier::ext_equal]
pub ghost struct GameStateModel {
    pub game_instance_id: GameInstanceId,
    pub game_type_id: Seq<char>,
    pub players: Seq<PlayerId>,
    pub current_player: Option<PlayerId>,
    pub state_data: Seq<u8>,
    pub move_history: Seq<GameMoveModel>,
    pub is_finished: bool,
    pub winner: Option<PlayerId>,
    pub created_at: u64,
    pub last_updated: u64,
    pub wagering_state: Option<crate::wagering::WageringStateModel>,
    pub last_activity: u64,
}

impl View for GameState {
    type V = GameStateModel;

    open spec fn view(&self) -> GameStateModel {
        GameStateModel {
            game_instance_id: self.game_instance_id,
            game_type_id: self.game_type_id@,
            players: self.players@,
            current_player: self.current_player,
            state_data: self.state_data@,
            move_history: self.move_history@.map_values(|m: GameMove| m@),
            is_finished: self.is_finished,
            winner: self.winner,
            created_at: self.created_at,
            last_updated: self.last_updated,
            wagering_state: match self.wagering_state {
                Some(ws) => Some(ws@),
                None => None,
            },
            last_activity: self.last_activity,
        }
    }
}

impl GameStateModel {
    /// Well-formedness: a session has at least one player, a winner is
    /// always a session player, the wagering sub-state (if any) is
    /// well-formed against the player list, and payouts exist only once the
    /// session is finished.
    pub open spec fn wf(self) -> bool {
        &&& self.players.len() >= 1
        &&& self.winner matches Some(w) ==> self.players.contains(w)
        &&& match self.wagering_state {
            Some(ws) => ws.wf(self.players) && (ws.payouts is Some ==> self.is_finished),
            None => true,
        }
    }
}

impl GameState {
    /// Well-formedness of the session record; see [`GameStateModel::wf`].
    pub open spec fn wf(self) -> bool {
        self@.wf()
    }
}

/// The capability contract every game type implements.  The `spec_*`
/// functions are the engine's mathematical behaviour; each executable method
/// is pinned to its specification function, so the session manager can be
/// verified without knowing any game's rules.
pub trait GameEngine: Sized {
    /// The game type id this engine owns.
    spec fn spec_type_id(&self) -> Seq<char>;

    /// Human-readable name.
    spec fn spec_display_name(&self) -> Seq<char>;

    /// Human-readable description.
    spec fn spec_description(&self) -> Seq<char>;

    /// Smallest admissible player count (at least one).
    spec fn spec_min_players(&self) -> u8;

    /// Largest admissible player count.
    spec fn spec_max_players(&self) -> u8;

    /// Whether sessions of this game may wager.
    spec fn spec_supports_wagering(&self) -> bool;

    /// The engine's own wagering configuration, used when a session is
    /// created without an explicit one.
    spec fn spec_default_wagering_config(&self) -> Option<WageringConfig>;

    /// The initial session record for the given parameters.
    spec fn spec_create_game(
        &self,
        config: GameConfigModel,
        players: Seq<PlayerId>,
        instance_id: GameInstanceId,
        now: u64,
    ) -> Result<GameStateModel, GameError>;

    /// The verdict on one move in one state.
    spec fn spec_validate_move(&self, state: GameStateModel, game_move: GameMoveModel) -> GameActionResult;

    /// The outcome of applying a validated move: the next payload and
    /// termination verdict.
    spec fn spec_apply_move(&self, state: GameStateModel, game_move: GameMoveModel) -> Result<
        MoveOutcomeModel,
        GameError,
    >;

    /// The winner of a concluded session (`None` both for a tie and for a
    /// session still running; engines encode the distinction in their own
    /// payload and report it through `is_finished`).
    spec fn spec_winner(&self, state: GameStateModel) -> Option<PlayerId>;

    /// The verdict on a stake offer.
    spec fn spec_validate_stake(&self, state: GameStateModel, player_id: PlayerId, amount: u64) -> Result<
        (),
        GameError,
    >;

    /// The pot distribution for a finished session.
    spec fn spec_calculate_payouts(&self, state: GameStateModel) -> Result<Seq<Payout>, GameError>;

    /// Static metadata: the unique game type id.
    fn game_type_id(&self) -> (r: GameTypeId)
        ensures
            r@ == self.spec_type_id(),
    ;

    /// Static metadata: display name.
    fn display_name(&self) -> (r: String)
        ensures
            r@ == self.spec_display_name(),
    ;

    /// Static metadata: description.
    fn description(&self) -> (r: String)
        ensures
            r@ == self.spec_description(),
    ;

    /// Inclusive upper bound on the player count.
    fn max_players(&self) -> (r: u8)
        ensures
            r == self.spec_max_players(),
    ;

    /// Inclusive lower bound on the player count.
    fn min_players(&self) -> (r: u8)
        ensures
            r == self.spec_min_players(),
    ;

    /// Whether sessions of this game may wager.
    fn supports_wagering(&self) -> (r: bool)
        ensures
            r == self.spec_supports_wagering(),
    ;

    /// The engine's default wagering configuration, if it has an opinion.
    fn default_wagering_config(&self) -> (r: Option<WageringConfig>)
        ensures
            r == self.spec_default_wagering_config(),
    ;

    /// Builds the initial session record.  Succeeds exactly when the player
    /// count lies within the engine's inclusive bounds; the fresh record is
    /// well-formed, unfinished, without history, stamped with the caller's
    /// clock reading, and carries a fresh wagering state exactly when the
    /// configuration asks for one.
    fn create_game(
        &self,
        config: &GameConfig,
        players: &Vec<PlayerId>,
        instance_id: GameInstanceId,
        now: u64,
    ) -> (r: Result<GameState, GameError>)
        ensures
            match r {
                Ok(st) => self.spec_create_game(config@, players@, instance_id, now)
                    == Ok::<GameStateModel, GameError>(st@),
                Err(e) => self.spec_create_game(config@, players@, instance_id, now)
                    == Err::<GameStateModel, GameError>(e),
            },
            (r is Ok) == (self.spec_min_players() <= players@.len() <= self.spec_max_players()),
            r matches Ok(st) ==> {
                &&& st.wf()
                &&& st.game_instance_id == instance_id
                &&& st.game_type_id@ == self.spec_type_id()
                &&& st.players@ == players@
                &&& st.current_player is None
                &&& st.move_history@.len() == 0
                &&& !st.is_finished
                &&& st.winner is None
                &&& st.created_at == now
                &&& st.last_updated == now
                &&& st.last_activity == now
                &&& match config.wagering_config {
                    Some(cfg) => st.wagering_state matches Some(ws) && ws.config == cfg
                        && ws.player_stakes@.len() == 0 && ws.total_pot == 0
                        && !ws.stakes_committed && ws.payouts is None,
                    None => st.wagering_state is None,
                }
            },
    ;

    /// Pure verdict on one move; never mutates.  Moves against a finished
    /// session and moves by non-members are always rejected.
    fn validate_move(&self, state: &GameState, game_move: &GameMove) -> (r: GameActionResult)
        requires
            state.wf(),
        ensures
            r == self.spec_validate_move(state@, game_move@),
            state.is_finished ==> r is Failure,
            !(r is Failure) ==> state.players@.contains(game_move.player_id),
    ;

    /// Applies a validated move.  Pure with respect to the input state:
    /// the engine reads the current payload and returns the next payload
    /// and termination verdict, deterministic in `(state, move)`.  The
    /// session manager swaps the assembled next record into the store
    /// wholesale, so a rejected or failed move never leaves a partially
    /// mutated session behind.
    fn apply_move(&self, state: &GameState, game_move: &GameMove) -> (r: Result<
        MoveOutcome,
        GameError,
    >)
        requires
            state.wf(),
            !(self.spec_validate_move(state@, game_move@) is Failure),
        ensures
            match r {
                Ok(out) => self.spec_apply_move(state@, game_move@) == Ok::<
                    MoveOutcomeModel,
                    GameError,
                >(out@),
                Err(e) => self.spec_apply_move(state@, game_move@) == Err::<
                    MoveOutcomeModel,
                    GameError,
                >(e),
            },
    ;

    /// The winner of a concluded session; any reported winner is a session
    /// player.
    fn check_game_end(&self, state: &GameState) -> (r: Option<PlayerId>)
        requires
            state.wf(),
        ensures
            r == self.spec_winner(state@),
            r matches Some(w) ==> state.players@.contains(w),
    ;

    /// Verdict on a stake offer: membership, no double commit, stake
    /// bounds, and the equal-stakes rule.  A player with a committed stake
    /// is always rejected, as is a session without wagering.
    fn validate_stake(&self, state: &GameState, player_id: PlayerId, amount: u64) -> (r: Result<
        (),
        GameError,
    >)
        requires
            state.wf(),
        ensures
            r == self.spec_validate_stake(state@, player_id, amount),
            r is Ok ==> (state@.wagering_state matches Some(ws)
                && crate::wagering::spec_stake_validation(state@.players, ws, player_id, amount)
                is Ok),
            state.wagering_state is None ==> r == Err::<(), GameError>(
                GameError::WageringNotSupported,
            ),
            state@.wagering_state matches Some(ws) && crate::wagering::spec_has_stake(
                ws.player_stakes,
                player_id,
            ) ==> r is Err,
    ;

    /// The pot distribution for a finished session.  Whatever the engine's
    /// policy, the distributed amounts never exceed the pot.
    fn calculate_payouts(&self, state: &GameState) -> (r: Result<Vec<Payout>, GameError>)
        requires
            state.wf(),
        ensures
            match r {
                Ok(ps) => self.spec_calculate_payouts(state@) == Ok::<Seq<Payout>, GameError>(ps@),
                Err(e) => self.spec_calculate_payouts(state@) == Err::<Seq<Payout>, GameError>(e),
            },
            match r {
                Ok(ps) => state.wagering_state matches Some(ws)
                    ==> crate::wagering::spec_sum_payouts(ps@) <= ws.total_pot,
                Err(_) => true,
            },
    ;
}

/// The engine registered under `type_id`, scanning the registration list
/// from the most recent entry: registering an engine under an id that is
/// already taken replaces the earlier registration for lookup purposes.
pub open spec fn engines_lookup<E: GameEngine>(engines: Seq<E>, type_id: Seq<char>) -> Option<E>
    decreases engines.len(),
{
    if engines.len() == 0 {
        None
    } else if engines.last().spec_type_id() == type_id {
        Some(engines.last())
    } else {
        engines_lookup(engines.drop_last(), type_id)
    }
}

/// A mapping from game type id to one engine instance.  Populated once at
/// startup by bootstrap code; the session manager only ever looks engines
/// up, and an unknown type id is an explicit not-found condition, never a
/// fallback engine.
pub struct GameEngineRegistry<E: GameEngine> {
    engines: Vec<E>,
}

impl<E: GameEngine> GameEngineRegistry<E> {
    /// The registered engines, in registration order.
    pub closed spec fn spec_engines(&self) -> Seq<E> {
        self.engines@
    }

    /// The engine registered under `type_id`, if any.
    pub open spec fn spec_get(&self, type_id: Seq<char>) -> Option<E> {
        engines_lookup(self.spec_engines(), type_id)
    }

    /// An empty registry: every lookup misses.
    pub fn new() -> (r: Self)
        ensures
            r.spec_engines() == Seq::<E>::empty(),
            forall|type_id: Seq<char>| r.spec_get(type_id) is None,
    {
        let r = GameEngineRegistry { engines: Vec::new() };
        assert forall|type_id: Seq<char>| r.spec_get(type_id) is None by {
            assert(r.spec_engines().len() == 0);
        }
        r
    }

    /// Registers an engine under its own type id.  A later registration
    /// under the same id shadows an earlier one; every other id resolves as
    /// before.
    pub fn register_engine(&mut self, engine: E)
        ensures
            final(self).spec_engines() == old(self).spec_engines().push(engine),
            forall|type_id: Seq<char>|
                #[trigger] final(self).spec_get(type_id) == if type_id == engine.spec_type_id() {
                    Some(engine)
                } else {
                    old(self).spec_get(type_id)
                },
    {
        self.engines.push(engine);
        assert forall|type_id: Seq<char>|
            #[trigger] self.spec_get(type_id) == if type_id == engine.spec_type_id() {
                Some(engine)
            } else {
                old(self).spec_get(type_id)
            } by {
            assert(self.spec_engines().last() == engine);
            assert(self.spec_engines().drop_last() =~= old(self).spec_engines());
        }
    }

    /// Looks up the engine registered under `game_type_id`; `None` exactly
    /// when no engine owns that id.
    pub fn get_engine(&self, game_type_id: &GameTypeId) -> (r: Option<&E>)
        ensures
            match r {
                Some(e) => self.spec_get(game_type_id@) == Some(*e),
                None => self.spec_get(game_type_id@) is None,
            },
    {
        let mut i: usize = self.engines.len();
        assert(self.engines@.subrange(0, i as int) =~= self.engines@);
        while i > 0
            invariant
                i <= self.engines.len(),
                engines_lookup(self.engines@.subrange(0, i as int), game_type_id@)
                    == self.spec_get(game_type_id@),
            decreases i,
        {
            let candidate_id = self.engines[i - 1].game_type_id();
            let prefix = Ghost(self.engines@.subrange(0, i as int));
            assert(prefix@.last() == self.engines@[i - 1]);
            if candidate_id == *game_type_id {
                return Some(&self.engines[i - 1]);
            }
            assert(prefix@.drop_last() =~= self.engines@.subrange(0, i - 1 as int));
            i = i - 1;
        }
        assert(self.engines@.subrange(0, 0) =~= Seq::<E>::empty());
        None
    }
}

/// Any engine found by lookup owns the id it was looked up under.
pub proof fn lemma_lookup_type_id<E: GameEngine>(engines: Seq<E>, type_id: Seq<char>)
    ensures
        engines_lookup(engines, type_id) matches Some(e) ==> e.spec_type_id() == type_id,
    decreases engines.len(),
{
    if engines.len() > 0 {
        lemma_lookup_type_id(engines.drop_last(), type_id);
    }
}

/// Whether a finished session still owes a payout computation: wagering is
/// active, every stake is committed, and no payout list was written yet.
pub open spec fn payouts_due(state: GameStateModel) -> bool {
    state.wagering_state matches Some(ws) && ws.stakes_committed && ws.payouts is None
}

/// The model of the stored record after a successfully processed move:
/// `expected` with the move appended to the history.
pub open spec fn with_move_appended(
    expected: GameStateModel,
    game_move: GameMoveModel,
) -> GameStateModel {
    GameStateModel { move_history: expected.move_history.push(game_move), ..expected }
}

/// The model of `expected` with the payout list `ps` written (once) into
/// the wagering sub-state.
pub open spec fn with_payouts_written(expected: GameStateModel, ps: Seq<Payout>) -> GameStateModel {
    GameStateModel {
        wagering_state: match expected.wagering_state {
            Some(wa) => Some(
                crate::wagering::WageringStateModel { payouts: Some(ps), ..wa },
            ),
            None => None,
        },
        ..expected
    }
}

/// The model of the stored record after a successful stake commit: the new
/// stake appended, the pot increased, and the committed latch recomputed
/// against the player count.
pub open spec fn with_stake_committed(
    pre: GameStateModel,
    player_id: PlayerId,
    amount: u64,
    now: u64,
) -> GameStateModel {
    match pre.wagering_state {
        Some(wa) => GameStateModel {
            wagering_state: Some(
                crate::wagering::WageringStateModel {
                    player_stakes: wa.player_stakes.push(
                        PlayerStake {
                            player_id,
                            amount,
                            token_mint: None,
                            committed: true,
                            committed_at: now,
                        },
                    ),
                    total_pot: (wa.total_pot + amount) as u64,
                    stakes_committed: wa.player_stakes.len() + 1 == pre.players.len(),
                    ..wa
                },
            ),
            ..pre
        },
        None => pre,
    }
}

/// Owns every live session record and orchestrates the move pipeline:
/// validate, apply, check termination, compute payouts, and atomically
/// replace the stored record.  The single owner of all session state; the
/// registry is fixed at construction.
pub struct GameStateManager<E: GameEngine> {
    registry: GameEngineRegistry<E>,
    active_games: HashMap<GameInstanceId, GameState>,
    next_instance_id: GameInstanceId,
}

impl<E: GameEngine> GameStateManager<E> {
    /// The stored sessions, keyed by instance id.
    pub closed spec fn spec_games(&self) -> Map<GameInstanceId, GameState> {
        self.active_games@
    }

    /// The engine registered under `type_id`.
    pub closed spec fn spec_engine(&self, type_id: Seq<char>) -> Option<E> {
        self.registry.spec_get(type_id)
    }

    /// The id the next created session will receive.
    pub closed spec fn spec_next_id(&self) -> GameInstanceId {
        self.next_instance_id
    }

    /// Invariant: every stored session is well-formed, is keyed by its own
    /// instance id, names a registered game type, and has an id below the
    /// allocation counter.
    pub open spec fn wf(&self) -> bool {
        forall|id: GameInstanceId| #[trigger]
            self.spec_games().contains_key(id) ==> {
                let st = self.spec_games()[id];
                &&& st.wf()
                &&& st.game_instance_id == id
                &&& self.spec_engine(st.game_type_id@) is Some
                &&& id < self.spec_next_id()
            }
    }

    /// A manager over the given registry, with no sessions yet.
    pub fn new(registry: GameEngineRegistry<E>) -> (m: Self)
        ensures
            m.wf(),
            m.spec_games() == Map::<GameInstanceId, GameState>::empty(),
            forall|type_id: Seq<char>| m.spec_engine(type_id) == registry.spec_get(type_id),
            m.spec_next_id() == 0,
    {
        GameStateManager { registry, active_games: HashMap::new(), next_instance_id: 0 }
    }

    /// Creates a session: resolves the engine by the config's game type,
    /// delegates initial-state construction to it, and stores the result
    /// under a fresh id.  Fails with `GameTypeNotFound` exactly when the
    /// type id is unregistered; every other error is the engine's creation
    /// verdict, and on any error the store is unchanged.
    pub fn create_game(&mut self, config: &GameConfig, players: &Vec<PlayerId>, now: u64) -> (r:
        Result<GameInstanceId, GameError>)
        requires
            old(self).wf(),
        ensures
            final(self).wf(),
            forall|type_id: Seq<char>|
                final(self).spec_engine(type_id) == old(self).spec_engine(type_id),
            match r {
                Ok(id) => {
                    &&& id == old(self).spec_next_id()
                    &&& !old(self).spec_games().contains_key(id)
                    &&& final(self).spec_games().contains_key(id)
                    &&& old(self).spec_engine(config.game_type_id@) matches Some(eng)
                        && eng.spec_create_game(config@, players@, id, now) == Ok::<
                        GameStateModel,
                        GameError,
                    >(final(self).spec_games()[id]@)
                    &&& final(self).spec_games() == old(self).spec_games().insert(
                        id,
                        final(self).spec_games()[id],
                    )
                    &&& final(self).spec_next_id() == old(self).spec_next_id() + 1
                },
                Err(e) => {
                    &&& final(self).spec_games() == old(self).spec_games()
                    &&& final(self).spec_next_id() == old(self).spec_next_id()
                    &&& match old(self).spec_engine(config.game_type_id@) {
                        None => e == GameError::GameTypeNotFound,
                        Some(eng) => if old(self).spec_next_id() == u64::MAX {
                            e == GameError::SessionLimitReached
                        } else {
                            eng.spec_create_game(config@, players@, old(self).spec_next_id(), now)
                                == Err::<GameStateModel, GameError>(e)
                        },
                    }
                },
            },
    {
        let engine = match self.registry.get_engine(&config.game_type_id) {
            None => {
                return Err(GameError::GameTypeNotFound);
            },
            Some(e) => e,
        };
        if self.next_instance_id == u64::MAX {
            return Err(GameError::SessionLimitReached);
        }
        let id = self.next_instance_id;
        let st = match engine.create_game(config, players, id, now) {
            Err(e) => {
                return Err(e);
            },
            Ok(s) => s,
        };
        proof {
            lemma_lookup_type_id(self.registry.spec_engines(), config.game_type_id@);
        }
        self.next_instance_id = id + 1;
        self.active_games.insert(id, st);
        Ok(id)
    }

    /// Read access to one session's record.
    pub fn get_game_state(&self, game_instance_id: &GameInstanceId) -> (r: Option<&GameState>)
        ensures
            match r {
                Some(st) => self.spec_games().contains_key(*game_instance_id) && *st
                    == self.spec_games()[*game_instance_id],
                None => !self.spec_games().contains_key(*game_instance_id),
            },
    {
        self.active_games.get(game_instance_id)
    }

    /// Read access to the engine registry.
    pub fn get_registry(&self) -> (r: &GameEngineRegistry<E>)
        ensures
            forall|type_id: Seq<char>| r.spec_get(type_id) == self.spec_engine(type_id),
    {
        &self.registry
    }

    /// Processes one move through the pipeline: look the session up, resolve
    /// its engine, validate, apply, evaluate termination against the
    /// post-apply state, compute payouts if the session ends with all stakes
    /// committed, and atomically replace the stored record.
    ///
    /// A move that fails validation is reported as data (`Failure`) and
    /// leaves the store unchanged, as does every error; in particular a
    /// move against a finished session changes nothing (the terminal
    /// latch).  No other session's record is ever touched.  A move that
    /// ends the game is answered with `GameEnded` carrying the winner the
    /// session's engine reports.
    pub fn process_move(&mut self, game_move: GameMove, now: u64) -> (r: Result<
        GameActionResult,
        GameError,
    >)
        requires
            old(self).wf(),
        ensures
            final(self).wf(),
            forall|type_id: Seq<char>|
                final(self).spec_engine(type_id) == old(self).spec_engine(type_id),
            final(self).spec_next_id() == old(self).spec_next_id(),
            // Sessions other than the move's target are never touched.
            forall|other: GameInstanceId|
                other != game_move.game_instance_id ==> final(self).spec_games().contains_key(other)
                    == old(self).spec_games().contains_key(other) && (old(
                    self,
                ).spec_games().contains_key(other) ==> final(self).spec_games()[other] == old(
                    self,
                ).spec_games()[other]),
            !old(self).spec_games().contains_key(game_move.game_instance_id) ==> r == Err::<
                GameActionResult,
                GameError,
            >(GameError::GameNotFound) && final(self).spec_games() == old(self).spec_games(),
            old(self).spec_games().contains_key(game_move.game_instance_id) ==> ({
                let pre = old(self).spec_games()[game_move.game_instance_id]@;
                &&& pre.is_finished ==> ({
                    &&& final(self).spec_games() == old(self).spec_games()
                    &&& r matches Ok(res) && res is Failure
                })
                &&& old(self).spec_engine(pre.game_type_id) matches Some(eng) && ({
                    let v = eng.spec_validate_move(pre, game_move@);
                    &&& v is Failure ==> final(self).spec_games() == old(self).spec_games() && r
                        == Ok::<GameActionResult, GameError>(v)
                    &&& !(v is Failure) ==> match eng.spec_apply_move(pre, game_move@) {
                        Err(e) => final(self).spec_games() == old(self).spec_games() && r == Err::<
                            GameActionResult,
                            GameError,
                        >(e),
                        Ok(out) => ({
                            let st1 = GameStateModel {
                                state_data: out.state_data,
                                is_finished: out.is_finished,
                                current_player: out.current_player,
                                last_updated: now,
                                ..pre
                            };
                            let w = eng.spec_winner(st1);
                            let st2 = if out.is_finished {
                                GameStateModel { winner: w, ..st1 }
                            } else {
                                st1
                            };
                            if out.is_finished && payouts_due(st2) {
                                match eng.spec_calculate_payouts(st2) {
                                    Err(e) => final(self).spec_games() == old(self).spec_games()
                                        && r == Err::<GameActionResult, GameError>(e),
                                    Ok(ps) => {
                                        &&& final(self).spec_games().contains_key(
                                            game_move.game_instance_id,
                                        )
                                        &&& final(self).spec_games()[game_move.game_instance_id]@
                                            == with_move_appended(
                                            with_payouts_written(st2, ps),
                                            game_move@,
                                        )
                                        &&& r == Ok::<GameActionResult, GameError>(
                                            GameActionResult::GameEnded { winner: w },
                                        )
                                    },
                                }
                            } else {
                                &&& final(self).spec_games().contains_key(
                                    game_move.game_instance_id,
                                )
                                &&& final(self).spec_games()[game_move.game_instance_id]@
                                    == with_move_appended(st2, game_move@)
                                &&& r == Ok::<GameActionResult, GameError>(
                                    if out.is_finished {
                                        GameActionResult::GameEnded { winner: w }
                                    } else {
                                        v
                                    },
                                )
                            }
                        }),
                    }
                })
            }),
    {
        let id = game_move.game_instance_id;
        let mut st = match self.active_games.remove(&id) {
            None => {
                proof {
                    assert(self.active_games@ =~= old(self).active_games@);
                }
                return Err(GameError::GameNotFound);
            },
            Some(s) => s,
        };
        let ghost pre = st;
        let engine = match self.registry.get_engine(&st.game_type_id) {
            None => {
                // Unreachable: the invariant keeps every stored game type
                // registered.  Kept as the pipeline's defensive check.
                self.active_games.insert(id, st);
                proof {
                    assert(self.active_games@ =~= old(self).active_games@);
                }
                return Err(GameError::EngineNotFound);
            },
            Some(e) => e,
        };
        let vres = engine.validate_move(&st, &game_move);
        if let GameActionResult::Failure(reason) = vres {
            self.active_games.insert(id, st);
            proof {
                assert(self.active_games@ =~= old(self).active_games@);
            }
            return Ok(GameActionResult::Failure(reason));
        }
        let outcome = match engine.apply_move(&st, &game_move) {
            Err(e) => {
                self.active_games.insert(id, st);
                proof {
                    assert(self.active_games@ =~= old(self).active_games@);
                }
                return Err(e);
            },
            Ok(o) => o,
        };
        // Assemble the candidate next record in place, keeping what is
        // needed to restore the original on a late failure.
        let ghost outm = outcome@;
        let ghost st1m = GameStateModel {
            state_data: outm.state_data,
            is_finished: outm.is_finished,
            current_player: outm.current_player,
            last_updated: now,
            ..pre@
        };
        let old_payload = st.state_data;
        st.state_data = outcome.state_data;
        let old_finished = st.is_finished;
        st.is_finished = outcome.is_finished;
        let old_current = st.current_player;
        st.current_player = outcome.current_player;
        let old_updated = st.last_updated;
        st.last_updated = now;
        assert(st@ =~= st1m);
        let mut ended_winner: Option<PlayerId> = None;
        if st.is_finished {
            let w = engine.check_game_end(&st);
            let old_winner = st.winner;
            st.winner = w;
            ended_winner = w;
            assert(st@ =~= (GameStateModel { winner: w, ..st1m }));
            let needs_payouts = match &st.wagering_state {
                Some(ws) => ws.stakes_committed && ws.payouts.is_none(),
                None => false,
            };
            if needs_payouts {
                match engine.calculate_payouts(&st) {
                    Err(e) => {
                        // Restore the record: the move is not applied and
                        // the store is left exactly as it was.
                        st.state_data = old_payload;
                        st.is_finished = old_finished;
                        st.current_player = old_current;
                        st.last_updated = old_updated;
                        st.winner = old_winner;
                        assert(st == pre);
                        self.active_games.insert(id, st);
                        proof {
                            assert(self.active_games@ =~= old(self).active_games@);
                        }
                        return Err(e);
                    },
                    Ok(ps) => {
                        let ghost before_payouts = st@;
                        let ghost psm = ps@;
                        if let Some(ws) = &mut st.wagering_state {
                            ws.payouts = Some(ps);
                        }
                        assert(st@ =~= with_payouts_written(before_payouts, psm));
                    },
                }
            }
        }
        let ghost before_history = st@;
        st.move_history.push(game_move);
        proof {
            assert(st.move_history@.map_values(|m: GameMove| m@) =~= before_history.move_history
                .push(game_move@));
        }
        assert(st@ =~= with_move_appended(before_history, game_move@));
        self.active_games.insert(id, st);
        if outcome.is_finished {
            Ok(GameActionResult::GameEnded { winner: ended_winner })
        } else {
            Ok(vres)
        }
    }

    /// Commits a player's stake: resolves the session and its engine, asks
    /// the engine to validate the offer, then appends the stake, grows the
    /// pot, and sets the `stakes_committed` latch once every session player
    /// has a stake.  Every rejection (including a repeated commit by the
    /// same player, which always fails) leaves the store unchanged.
    pub fn commit_stake(
        &mut self,
        game_instance_id: &GameInstanceId,
        player_id: PlayerId,
        amount: u64,
        now: u64,
    ) -> (r: Result<(), GameError>)
        requires
            old(self).wf(),
        ensures
            final(self).wf(),
            forall|type_id: Seq<char>|
                final(self).spec_engine(type_id) == old(self).spec_engine(type_id),
            final(self).spec_next_id() == old(self).spec_next_id(),
            r is Err ==> final(self).spec_games() == old(self).spec_games(),
            forall|other: GameInstanceId|
                other != *game_instance_id ==> final(self).spec_games().contains_key(other) == old(
                    self,
                ).spec_games().contains_key(other) && (old(self).spec_games().contains_key(other)
                    ==> final(self).spec_games()[other] == old(self).spec_games()[other]),
            !old(self).spec_games().contains_key(*game_instance_id) ==> r == Err::<(), GameError>(
                GameError::GameNotFound,
            ),
            old(self).spec_games().contains_key(*game_instance_id) ==> ({
                let pre = old(self).spec_games()[*game_instance_id]@;
                &&& old(self).spec_engine(pre.game_type_id) matches Some(eng) && ({
                    let sv = eng.spec_validate_stake(pre, player_id, amount);
                    &&& sv matches Err(e) ==> r == Err::<(), GameError>(e)
                    &&& sv is Ok ==> (pre.wagering_state matches Some(wa) && (
                    if amount > u64::MAX - wa.total_pot {
                        r == Err::<(), GameError>(GameError::PotOverflow)
                    } else {
                        &&& r is Ok
                        &&& final(self).spec_games().contains_key(*game_instance_id)
                        &&& final(self).spec_games()[*game_instance_id]@ == with_stake_committed(
                            pre,
                            player_id,
                            amount,
                            now,
                        )
                    }))
                })
                &&& pre.wagering_state matches Some(wa) ==> (crate::wagering::spec_has_stake(
                    wa.player_stakes,
                    player_id,
                ) ==> r is Err)
            }),
    {
        let id = *game_instance_id;
        let mut st = match self.active_games.remove(&id) {
            None => {
                proof {
                    assert(self.active_games@ =~= old(self).active_games@);
                }
                return Err(GameError::GameNotFound);
            },
            Some(s) => s,
        };
        let engine = match self.registry.get_engine(&st.game_type_id) {
            None => {
                // Unreachable: the invariant keeps every stored game type
                // registered.  Kept as the pipeline's defensive check.
                self.active_games.insert(id, st);
                proof {
                    assert(self.active_games@ =~= old(self).active_games@);
                }
                return Err(GameError::EngineNotFound);
            },
            Some(e) => e,
        };
        match engine.validate_stake(&st, player_id, amount) {
            Err(e) => {
                self.active_games.insert(id, st);
                proof {
                    assert(self.active_games@ =~= old(self).active_games@);
                }
                return Err(e);
            },
            Ok(()) => {},
        }
        let pot_fits = match &st.wagering_state {
            Some(ws) => amount <= u64::MAX - ws.total_pot,
            None => false,
        };
        if !pot_fits {
            self.active_games.insert(id, st);
            proof {
                assert(self.active_games@ =~= old(self).active_games@);
            }
            return Err(GameError::PotOverflow);
        }
        let players_len = st.players.len();
        let ghost pre_st = st;
        if let Some(ws) = &mut st.wagering_state {
            ws.player_stakes.push(
                PlayerStake { player_id, amount, token_mint: None, committed: true, committed_at: now },
            );
            ws.total_pot = ws.total_pot + amount;
            ws.stakes_committed = ws.player_stakes.len() == players_len;
        }
        proof {
            let wa = pre_st.wagering_state->Some_0;
            let wb = st.wagering_state->Some_0;
            assert(wb.player_stakes@.drop_last() =~= wa.player_stakes@);
            assert(spec_sum_stakes(wb.player_stakes@) == spec_sum_stakes(wa.player_stakes@)
                + amount);
            assert(!crate::wagering::spec_has_stake(wa.player_stakes@, player_id));
            assert forall|i: int, j: int|
                0 <= i < j < wb.player_stakes@.len() implies wb.player_stakes@[i].player_id
                != wb.player_stakes@[j].player_id by {
                if j == wb.player_stakes@.len() - 1 {
                    assert(wb.player_stakes@[i] == wa.player_stakes@[i]);
                    assert(wa.player_stakes@[i].player_id != player_id);
                }
            }
            assert(st@ =~= with_stake_committed(pre_st@, player_id, amount, now));
            assert(st.wf());
        }
        self.active_games.insert(id, st);
        Ok(())
    }

    /// Law: pot conservation.  In a well-formed manager, every stored
    /// session's recorded payout amounts sum to at most its pot; the
    /// invariant holds from the moment the payouts are written, which is
    /// only ever after `stakes_committed` became true.
    pub proof fn lemma_pot_conservation(&self, game_instance_id: GameInstanceId)
        requires
            self.wf(),
            self.spec_games().contains_key(game_instance_id),
        ensures
            self.spec_games()[game_instance_id]@.wagering_state matches Some(ws) ==> (
            ws.payouts matches Some(ps) ==> crate::wagering::spec_sum_payouts(ps) <= ws.total_pot),
    {
    }

    /// Stamps a session's last-activity field with the caller's clock
    /// reading; a miss changes nothing.
    pub fn record_activity(&mut self, game_instance_id: &GameInstanceId, now: u64)
        requires
            old(self).wf(),
        ensures
            final(self).wf(),
            forall|type_id: Seq<char>|
                final(self).spec_engine(type_id) == old(self).spec_engine(type_id),
            final(self).spec_next_id() == old(self).spec_next_id(),
            old(self).spec_games().contains_key(*game_instance_id) ==> final(self).spec_games()
                == old(self).spec_games().insert(
                *game_instance_id,
                GameState {
                    last_activity: now,
                    ..old(self).spec_games()[*game_instance_id]
                },
            ),
            !old(self).spec_games().contains_key(*game_instance_id) ==> final(self).spec_games()
                == old(self).spec_games(),
    {
        let id = *game_instance_id;
        match self.active_games.remove(&id) {
            None => {
                proof {
                    assert(self.active_games@ =~= old(self).active_games@);
                }
            },
            Some(mut st) => {
                st.last_activity = now;
                self.active_games.insert(id, st);
            },
        }
    }
}

} // verus!
