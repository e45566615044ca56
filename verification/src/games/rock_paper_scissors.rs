//! The reference game: two-player simultaneous-choice Rock-Paper-Scissors.
//!
//! Both players submit one choice; once both are in, the session is
//! concluded.  Rock beats Scissors, Paper beats Rock, Scissors beats Paper;
//! equal choices tie (a concluded session with no winner).
//!
//! The engine owns the encodings of its move payload (one byte) and of its
//! game-specific state payload (a fixed 27-byte record), and both encodings
//! round-trip exactly; see [`lemma_state_codec_round_trip`].

use crate::errors::{GameError, RejectReason};
use crate::game_traits::{
    GameActionResult, GameConfig, GameConfigModel, GameEngine, GameInstanceId, GameMove,
    GameMoveModel, GameState, GameStateModel, GameTypeId, MoveOutcome, MoveOutcomeModel,
};
use crate::wagering::{
    compute_default_payouts, contains_player, spec_default_payouts, spec_stake_validation,
    validate_stake_rules, Payout, PlayerId, WageringConfig, WageringState, WageringStateModel,
};
use vstd::bytes::{
    lemma_auto_spec_u64_to_from_le_bytes, spec_u64_from_le_bytes, spec_u64_to_le_bytes,
    u64_from_le_bytes, u64_to_le_bytes,
};
use vstd::prelude::*;
use vstd::slice::slice_subrange;

verus! {

/// One player's choice; also the entire decoded move payload.
#[derive(Clone, Copy, Debug, PartialEq, Eq)]
pub enum RPSChoice {
    Rock,
    Paper,
    Scissors,
}

/// The phase a session is in, derived from how many choices are in.  This
/// variant plays choices openly (no cryptographic commitments), so the
/// commitment phase simply means no choice has been submitted yet.
#[derive(Clone, Copy, Debug, PartialEq, Eq)]
pub enum RPSPhase {
    /// No choice submitted yet.
    Commitment,
    /// One choice is in; waiting for the other player to show theirs.
    Reveal,
    /// Both choices are in; the session is concluded.
    Finished,
}

/// The decoded game-specific payload: the two players in joining order,
/// their optional choices, and the winner recorded at conclusion.
#[derive(Clone, Copy, Debug, PartialEq, Eq)]
pub struct RPSGameState {
    pub player_one: PlayerId,
    pub player_two: PlayerId,
    pub choice_one: Option<RPSChoice>,
    pub choice_two: Option<RPSChoice>,
    pub winner: Option<PlayerId>,
}

/// Whether both choices are in, concluding the session.
pub open spec fn spec_concluded(rps: RPSGameState) -> bool {
    rps.choice_one is Some && rps.choice_two is Some
}

/// The winning relation of the game: Rock beats Scissors, Paper beats Rock,
/// Scissors beats Paper.
pub open spec fn spec_beats(a: RPSChoice, b: RPSChoice) -> bool {
    ||| (a is Rock && b is Scissors)
    ||| (a is Paper && b is Rock)
    ||| (a is Scissors && b is Paper)
}

/// The winner once both choices are in; `None` for a tie or while a choice
/// is still missing.
pub open spec fn spec_rps_winner(rps: RPSGameState) -> Option<PlayerId> {
    match (rps.choice_one, rps.choice_two) {
        (Some(a), Some(b)) => if spec_beats(a, b) {
            Some(rps.player_one)
        } else if spec_beats(b, a) {
            Some(rps.player_two)
        } else {
            None
        },
        _ => None,
    }
}

impl RPSGameState {
    /// The derived phase; see [`RPSPhase`].
    pub open spec fn spec_phase(self) -> RPSPhase {
        if self.choice_one is Some && self.choice_two is Some {
            RPSPhase::Finished
        } else if self.choice_one is Some || self.choice_two is Some {
            RPSPhase::Reveal
        } else {
            RPSPhase::Commitment
        }
    }

    /// The phase a session with this payload is in.
    pub fn phase(&self) -> (r: RPSPhase)
        ensures
            r == self.spec_phase(),
    {
        if self.choice_one.is_some() && self.choice_two.is_some() {
            RPSPhase::Finished
        } else if self.choice_one.is_some() || self.choice_two.is_some() {
            RPSPhase::Reveal
        } else {
            RPSPhase::Commitment
        }
    }
}

/// The one-byte tag of an optional choice in the state payload.
pub open spec fn choice_tag(c: Option<RPSChoice>) -> u8 {
    match c {
        None => 0,
        Some(RPSChoice::Rock) => 1,
        Some(RPSChoice::Paper) => 2,
        Some(RPSChoice::Scissors) => 3,
    }
}

/// The optional choice a state-payload tag stands for; `None` for an
/// invalid tag.
pub open spec fn tag_to_choice(t: u8) -> Option<Option<RPSChoice>> {
    if t == 0 {
        Some(None)
    } else if t == 1 {
        Some(Some(RPSChoice::Rock))
    } else if t == 2 {
        Some(Some(RPSChoice::Paper))
    } else if t == 3 {
        Some(Some(RPSChoice::Scissors))
    } else {
        None
    }
}

/// The engine-owned state encoding: both player ids little-endian, one tag
/// byte per choice, then a winner tag (0 absent, 1 present) followed by the
/// winner id little-endian (zero when absent).  Always 27 bytes.
pub open spec fn spec_encode_state(rps: RPSGameState) -> Seq<u8> {
    spec_u64_to_le_bytes(rps.player_one) + spec_u64_to_le_bytes(rps.player_two) + seq![
        choice_tag(rps.choice_one),
        choice_tag(rps.choice_two),
    ] + match rps.winner {
        Some(w) => seq![1u8] + spec_u64_to_le_bytes(w),
        None => seq![0u8] + spec_u64_to_le_bytes(0u64),
    }
}

/// Decodes a state payload; `None` exactly on byte strings that no
/// [`spec_encode_state`] produces (wrong length, invalid tag, or a
/// non-canonical absent winner).
pub open spec fn spec_decode_state(b: Seq<u8>) -> Option<RPSGameState> {
    if b.len() != 27 {
        None
    } else {
        let player_one = spec_u64_from_le_bytes(b.subrange(0, 8));
        let player_two = spec_u64_from_le_bytes(b.subrange(8, 16));
        let wid = spec_u64_from_le_bytes(b.subrange(19, 27));
        match (tag_to_choice(b[16]), tag_to_choice(b[17])) {
            (Some(choice_one), Some(choice_two)) => if b[18] == 1 {
                Some(
                    RPSGameState { player_one, player_two, choice_one, choice_two, winner: Some(wid) },
                )
            } else if b[18] == 0 && wid == 0 {
                Some(RPSGameState { player_one, player_two, choice_one, choice_two, winner: None })
            } else {
                None
            },
            _ => None,
        }
    }
}

/// The engine-owned move encoding: a single byte per choice.
pub open spec fn spec_encode_choice(c: RPSChoice) -> Seq<u8> {
    seq![
        match c {
            RPSChoice::Rock => 0u8,
            RPSChoice::Paper => 1u8,
            RPSChoice::Scissors => 2u8,
        },
    ]
}

/// Decodes a move payload; `None` exactly on byte strings that no
/// [`spec_encode_choice`] produces.
pub open spec fn spec_decode_choice(b: Seq<u8>) -> Option<RPSChoice> {
    if b.len() != 1 {
        None
    } else if b[0] == 0 {
        Some(RPSChoice::Rock)
    } else if b[0] == 1 {
        Some(RPSChoice::Paper)
    } else if b[0] == 2 {
        Some(RPSChoice::Scissors)
    } else {
        None
    }
}

/// Law: the state encoding round-trips exactly, for every payload value.
pub proof fn lemma_state_codec_round_trip(rps: RPSGameState)
    ensures
        spec_decode_state(spec_encode_state(rps)) == Some(rps),
{
    lemma_auto_spec_u64_to_from_le_bytes();
    let b = spec_encode_state(rps);
    assert(b.subrange(0, 8) =~= spec_u64_to_le_bytes(rps.player_one));
    assert(b.subrange(8, 16) =~= spec_u64_to_le_bytes(rps.player_two));
    assert(b.subrange(19, 27) =~= match rps.winner {
        Some(w) => spec_u64_to_le_bytes(w),
        None => spec_u64_to_le_bytes(0u64),
    });
    assert(b[16] == choice_tag(rps.choice_one));
    assert(b[17] == choice_tag(rps.choice_two));
    assert(b[18] == (if rps.winner is Some {
        1u8
    } else {
        0u8
    }));
}

/// Law: the move encoding round-trips exactly, for every choice.
pub proof fn lemma_choice_codec_round_trip(c: RPSChoice)
    ensures
        spec_decode_choice(spec_encode_choice(c)) == Some(c),
{
}

/// Encodes a state payload.
pub fn encode_state(rps: &RPSGameState) -> (b: Vec<u8>)
    ensures
        b@ == spec_encode_state(*rps),
{
    let mut b = u64_to_le_bytes(rps.player_one);
    let mut second = u64_to_le_bytes(rps.player_two);
    b.append(&mut second);
    b.push(tag_of_choice(rps.choice_one));
    b.push(tag_of_choice(rps.choice_two));
    match rps.winner {
        Some(w) => {
            b.push(1);
            let mut wid = u64_to_le_bytes(w);
            b.append(&mut wid);
        },
        None => {
            b.push(0);
            let mut wid = u64_to_le_bytes(0);
            b.append(&mut wid);
        },
    }
    assert(b@ =~= spec_encode_state(*rps));
    b
}

/// Decodes a state payload.
pub fn decode_state(b: &Vec<u8>) -> (r: Option<RPSGameState>)
    ensures
        r == spec_decode_state(b@),
{
    if b.len() != 27 {
        return None;
    }
    let s = b.as_slice();
    let player_one = u64_from_le_bytes(slice_subrange(s, 0, 8));
    let player_two = u64_from_le_bytes(slice_subrange(s, 8, 16));
    let wid = u64_from_le_bytes(slice_subrange(s, 19, 27));
    let choice_one = match choice_of_tag(b[16]) {
        None => {
            return None;
        },
        Some(c) => c,
    };
    let choice_two = match choice_of_tag(b[17]) {
        None => {
            return None;
        },
        Some(c) => c,
    };
    if b[18] == 1 {
        Some(RPSGameState { player_one, player_two, choice_one, choice_two, winner: Some(wid) })
    } else if b[18] == 0 && wid == 0 {
        Some(RPSGameState { player_one, player_two, choice_one, choice_two, winner: None })
    } else {
        None
    }
}

/// Encodes a move payload.
pub fn encode_choice(c: RPSChoice) -> (b: Vec<u8>)
    ensures
        b@ == spec_encode_choice(c),
{
    let mut b: Vec<u8> = Vec::new();
    b.push(
        match c {
            RPSChoice::Rock => 0,
            RPSChoice::Paper => 1,
            RPSChoice::Scissors => 2,
        },
    );
    assert(b@ =~= spec_encode_choice(c));
    b
}

/// Decodes a move payload.
pub fn decode_choice(b: &Vec<u8>) -> (r: Option<RPSChoice>)
    ensures
        r == spec_decode_choice(b@),
{
    if b.len() != 1 {
        None
    } else if b[0] == 0 {
        Some(RPSChoice::Rock)
    } else if b[0] == 1 {
        Some(RPSChoice::Paper)
    } else if b[0] == 2 {
        Some(RPSChoice::Scissors)
    } else {
        None
    }
}

/// The tag byte of an optional choice.
fn tag_of_choice(c: Option<RPSChoice>) -> (t: u8)
    ensures
        t == choice_tag(c),
{
    match c {
        None => 0,
        Some(RPSChoice::Rock) => 1,
        Some(RPSChoice::Paper) => 2,
        Some(RPSChoice::Scissors) => 3,
    }
}

/// The optional choice a tag byte stands for.
fn choice_of_tag(t: u8) -> (r: Option<Option<RPSChoice>>)
    ensures
        r == tag_to_choice(t),
{
    if t == 0 {
        Some(None)
    } else if t == 1 {
        Some(Some(RPSChoice::Rock))
    } else if t == 2 {
        Some(Some(RPSChoice::Paper))
    } else if t == 3 {
        Some(Some(RPSChoice::Scissors))
    } else {
        None
    }
}

/// The initial payload for a fresh session of the two given players.
pub open spec fn spec_initial_rps(players: Seq<PlayerId>) -> RPSGameState {
    RPSGameState {
        player_one: players[0],
        player_two: players[1],
        choice_one: None,
        choice_two: None,
        winner: None,
    }
}

/// The payload after `player` plays `c`: the choice recorded in the
/// player's slot and, once both choices are in, the winner.
pub open spec fn spec_apply_choice(rps: RPSGameState, player: PlayerId, c: RPSChoice) -> RPSGameState {
    let with_choice = if player == rps.player_one {
        RPSGameState { choice_one: Some(c), ..rps }
    } else {
        RPSGameState { choice_two: Some(c), ..rps }
    };
    RPSGameState { winner: spec_rps_winner(with_choice), ..with_choice }
}

/// The reference engine.  Stateless: every session's data lives in the
/// session record, never in the engine.
pub struct RPSEngine;

impl RPSEngine {
    /// A fresh engine instance.
    pub fn new() -> (r: Self)
        ensures
            r == (RPSEngine {}),
    {
        RPSEngine {}
    }

    /// The winner under the game's winning relation, once both choices are
    /// in; `None` for a tie or an unfinished payload.
    pub fn determine_winner(&self, rps_state: &RPSGameState) -> (r: Option<PlayerId>)
        ensures
            r == spec_rps_winner(*rps_state),
    {
        match (rps_state.choice_one, rps_state.choice_two) {
            (Some(RPSChoice::Rock), Some(RPSChoice::Scissors)) => Some(rps_state.player_one),
            (Some(RPSChoice::Paper), Some(RPSChoice::Rock)) => Some(rps_state.player_one),
            (Some(RPSChoice::Scissors), Some(RPSChoice::Paper)) => Some(rps_state.player_one),
            (Some(RPSChoice::Scissors), Some(RPSChoice::Rock)) => Some(rps_state.player_two),
            (Some(RPSChoice::Rock), Some(RPSChoice::Paper)) => Some(rps_state.player_two),
            (Some(RPSChoice::Paper), Some(RPSChoice::Scissors)) => Some(rps_state.player_two),
            _ => None,
        }
    }
}

/// Copies a player list.
fn copy_players(players: &Vec<PlayerId>) -> (r: Vec<PlayerId>)
    ensures
        r@ == players@,
{
    let mut r: Vec<PlayerId> = Vec::new();
    let mut i: usize = 0;
    while i < players.len()
        invariant
            i <= players.len(),
            r@ =~= players@.subrange(0, i as int),
        decreases players.len() - i,
    {
        r.push(players[i]);
        assert(players@.subrange(0, i + 1 as int) =~= players@.subrange(0, i as int).push(
            players@[i as int],
        ));
        i = i + 1;
    }
    assert(players@.subrange(0, players@.len() as int) =~= players@);
    r
}

impl GameEngine for RPSEngine {
    open spec fn spec_type_id(&self) -> Seq<char> {
        "rock_paper_scissors"@
    }

    open spec fn spec_display_name(&self) -> Seq<char> {
        "Rock-Paper-Scissors"@
    }

    open spec fn spec_description(&self) -> Seq<char> {
        "Classic Rock-Paper-Scissors for two players"@
    }

    open spec fn spec_min_players(&self) -> u8 {
        2
    }

    open spec fn spec_max_players(&self) -> u8 {
        2
    }

    open spec fn spec_supports_wagering(&self) -> bool {
        true
    }

    open spec fn spec_default_wagering_config(&self) -> Option<WageringConfig> {
        None
    }

    open spec fn spec_create_game(
        &self,
        config: GameConfigModel,
        players: Seq<PlayerId>,
        instance_id: GameInstanceId,
        now: u64,
    ) -> Result<GameStateModel, GameError> {
        if players.len() == 2 {
            Ok(
                GameStateModel {
                    game_instance_id: instance_id,
                    game_type_id: "rock_paper_scissors"@,
                    players,
                    current_player: None,
                    state_data: spec_encode_state(spec_initial_rps(players)),
                    move_history: Seq::empty(),
                    is_finished: false,
                    winner: None,
                    created_at: now,
                    last_updated: now,
                    wagering_state: match config.wagering_config {
                        Some(cfg) => Some(
                            WageringStateModel {
                                config: cfg,
                                player_stakes: Seq::empty(),
                                total_pot: 0,
                                stakes_committed: false,
                                payouts: None,
                            },
                        ),
                        None => None,
                    },
                    last_activity: now,
                },
            )
        } else {
            Err(GameError::InvalidPlayerCount)
        }
    }

    open spec fn spec_validate_move(
        &self,
        state: GameStateModel,
        game_move: GameMoveModel,
    ) -> GameActionResult {
        if state.is_finished {
            GameActionResult::Failure(RejectReason::GameAlreadyFinished)
        } else {
            match spec_decode_state(state.state_data) {
                None => GameActionResult::Failure(RejectReason::StateUnreadable),
                Some(rps) => match spec_decode_choice(game_move.move_data) {
                    None => GameActionResult::Failure(RejectReason::MalformedMove),
                    Some(c) => if !state.players.contains(game_move.player_id) || (
                    game_move.player_id != rps.player_one && game_move.player_id
                        != rps.player_two) {
                        GameActionResult::Failure(RejectReason::PlayerNotInGame)
                    } else if game_move.player_id == rps.player_one && rps.choice_one is Some {
                        GameActionResult::Failure(RejectReason::AlreadyMoved)
                    } else if game_move.player_id != rps.player_one && rps.choice_two is Some {
                        GameActionResult::Failure(RejectReason::AlreadyMoved)
                    } else {
                        GameActionResult::Success
                    },
                },
            }
        }
    }

    open spec fn spec_apply_move(
        &self,
        state: GameStateModel,
        game_move: GameMoveModel,
    ) -> Result<MoveOutcomeModel, GameError> {
        match (spec_decode_state(state.state_data), spec_decode_choice(game_move.move_data)) {
            (Some(rps), Some(c)) => {
                let next = spec_apply_choice(rps, game_move.player_id, c);
                Ok(
                    MoveOutcomeModel {
                        state_data: spec_encode_state(next),
                        is_finished: spec_concluded(next),
                        current_player: None,
                    },
                )
            },
            _ => Err(GameError::ApplyFailed),
        }
    }

    open spec fn spec_winner(&self, state: GameStateModel) -> Option<PlayerId> {
        match spec_decode_state(state.state_data) {
            Some(rps) => if spec_concluded(rps) {
                match rps.winner {
                    Some(w) => if state.players.contains(w) {
                        Some(w)
                    } else {
                        None
                    },
                    None => None,
                }
            } else {
                None
            },
            None => None,
        }
    }

    open spec fn spec_validate_stake(
        &self,
        state: GameStateModel,
        player_id: PlayerId,
        amount: u64,
    ) -> Result<(), GameError> {
        match state.wagering_state {
            None => Err(GameError::WageringNotSupported),
            Some(ws) => spec_stake_validation(state.players, ws, player_id, amount),
        }
    }

    open spec fn spec_calculate_payouts(&self, state: GameStateModel) -> Result<
        Seq<Payout>,
        GameError,
    > {
        match state.wagering_state {
            None => Ok(Seq::empty()),
            Some(ws) => spec_default_payouts(ws, state.winner),
        }
    }

    fn game_type_id(&self) -> (r: GameTypeId) {
        "rock_paper_scissors".to_owned()
    }

    fn display_name(&self) -> (r: String) {
        "Rock-Paper-Scissors".to_owned()
    }

    fn description(&self) -> (r: String) {
        "Classic Rock-Paper-Scissors for two players".to_owned()
    }

    fn max_players(&self) -> (r: u8) {
        2
    }

    fn min_players(&self) -> (r: u8) {
        2
    }

    fn supports_wagering(&self) -> (r: bool) {
        true
    }

    fn default_wagering_config(&self) -> (r: Option<WageringConfig>) {
        None
    }

    fn create_game(
        &self,
        config: &GameConfig,
        players: &Vec<PlayerId>,
        instance_id: GameInstanceId,
        now: u64,
    ) -> (r: Result<GameState, GameError>) {
        if players.len() != 2 {
            return Err(GameError::InvalidPlayerCount);
        }
        let initial = RPSGameState {
            player_one: players[0],
            player_two: players[1],
            choice_one: None,
            choice_two: None,
            winner: None,
        };
        let state_data = encode_state(&initial);
        let wagering_state = match &config.wagering_config {
            Some(cfg) => Some(WageringState::new(*cfg)),
            None => None,
        };
        let st = GameState {
            game_instance_id: instance_id,
            game_type_id: "rock_paper_scissors".to_owned(),
            players: copy_players(players),
            current_player: None,
            state_data,
            move_history: Vec::new(),
            is_finished: false,
            winner: None,
            created_at: now,
            last_updated: now,
            wagering_state,
            last_activity: now,
        };
        assert(st@ =~= self.spec_create_game(config@, players@, instance_id, now).unwrap());
        Ok(st)
    }

    fn validate_move(&self, state: &GameState, game_move: &GameMove) -> (r: GameActionResult) {
        if state.is_finished {
            return GameActionResult::Failure(RejectReason::GameAlreadyFinished);
        }
        let rps = match decode_state(&state.state_data) {
            None => {
                return GameActionResult::Failure(RejectReason::StateUnreadable);
            },
            Some(s) => s,
        };
        match decode_choice(&game_move.move_data) {
            None => {
                return GameActionResult::Failure(RejectReason::MalformedMove);
            },
            Some(_) => {},
        }
        if !contains_player(&state.players, game_move.player_id) || (game_move.player_id
            != rps.player_one && game_move.player_id != rps.player_two) {
            return GameActionResult::Failure(RejectReason::PlayerNotInGame);
        }
        if game_move.player_id == rps.player_one {
            if rps.choice_one.is_some() {
                return GameActionResult::Failure(RejectReason::AlreadyMoved);
            }
        } else {
            if rps.choice_two.is_some() {
                return GameActionResult::Failure(RejectReason::AlreadyMoved);
            }
        }
        GameActionResult::Success
    }

    fn apply_move(&self, state: &GameState, game_move: &GameMove) -> (r: Result<
        MoveOutcome,
        GameError,
    >) {
        let rps = match decode_state(&state.state_data) {
            None => {
                return Err(GameError::ApplyFailed);
            },
            Some(s) => s,
        };
        let choice = match decode_choice(&game_move.move_data) {
            None => {
                return Err(GameError::ApplyFailed);
            },
            Some(c) => c,
        };
        let with_choice = if game_move.player_id == rps.player_one {
            RPSGameState { choice_one: Some(choice), ..rps }
        } else {
            RPSGameState { choice_two: Some(choice), ..rps }
        };
        let winner = self.determine_winner(&with_choice);
        let next = RPSGameState { winner, ..with_choice };
        let is_finished = next.choice_one.is_some() && next.choice_two.is_some();
        let outcome = MoveOutcome { state_data: encode_state(&next), is_finished, current_player: None };
        assert(outcome@ =~= self.spec_apply_move(state@, game_move@).unwrap());
        Ok(outcome)
    }

    fn check_game_end(&self, state: &GameState) -> (r: Option<PlayerId>) {
        let rps = match decode_state(&state.state_data) {
            None => {
                return None;
            },
            Some(s) => s,
        };
        if rps.choice_one.is_some() && rps.choice_two.is_some() {
            match rps.winner {
                Some(w) => {
                    if contains_player(&state.players, w) {
                        Some(w)
                    } else {
                        None
                    }
                },
                None => None,
            }
        } else {
            None
        }
    }

    fn validate_stake(&self, state: &GameState, player_id: PlayerId, amount: u64) -> (r: Result<
        (),
        GameError,
    >) {
        match &state.wagering_state {
            None => Err(GameError::WageringNotSupported),
            Some(ws) => validate_stake_rules(&state.players, ws, player_id, amount),
        }
    }

    fn calculate_payouts(&self, state: &GameState) -> (r: Result<Vec<Payout>, GameError>) {
        match &state.wagering_state {
            None => Ok(Vec::new()),
            Some(ws) => {
                proof {
                    crate::wagering::lemma_default_payouts_conserve_pot(
                        ws@,
                        state.winner,
                        state.players@,
                    );
                }
                let r = compute_default_payouts(ws, state.winner);
                if let Ok(ps) = &r {
                    assert(spec_default_payouts(ws@, state.winner) == Ok::<Seq<Payout>, GameError>(
                        ps@,
                    ));
                    assert(crate::wagering::spec_sum_payouts(ps@) <= ws.total_pot);
                }
                r
            },
        }
    }
}

} // verus!
