//! Stake bookkeeping and payout computation.
//!
//! A session that wagers carries a [`WageringState`]: the immutable
//! [`WageringConfig`], the stakes committed so far, the running pot, a
//! one-way `stakes_committed` latch, and the payout list that is written
//! exactly once when the session ends.
//!
//! The built-in rules implement the default behaviour of the engine
//! contract: [`spec_stake_validation`] states when a stake is accepted, and
//! [`spec_default_payouts`] states the pot distribution.  For
//! `WinnerTakesAll` with a decisive winner the whole pot goes to the winner;
//! on a tie every committed staker is refunded their own stake, so the
//! amounts always sum to exactly the pot, and the `percentage` field is the
//! integer quotient `100 / number of stakers` (any remainder stays
//! unassigned in the percentage bookkeeping only; no pot amount is lost).
//! `SplitPot` needs a game-specific notion of runner-up, so the default
//! rules reject it explicitly rather than guessing.

use crate::errors::GameError;
use vstd::prelude::*;

verus! {

/// A player identifier.  Opaque to the core: only identity matters.
pub type PlayerId = u64;

/// How the pot is distributed when a wagering session ends.
#[derive(Clone, Copy, Debug, PartialEq, Eq)]
pub enum WageringType {
    /// The sole winner receives the entire pot; a tie refunds all stakes.
    WinnerTakesAll,
    /// Winner and runner-up split the pot.  Determining a runner-up is
    /// game-specific, so the built-in rules do not implement this mode.
    SplitPot { winner_percentage: u8, runner_up_percentage: u8 },
}

/// Wagering parameters fixed at session creation.
#[derive(Clone, Copy, Debug, PartialEq, Eq)]
pub struct WageringConfig {
    pub wagering_type: WageringType,
    /// Smallest acceptable stake, inclusive.
    pub min_stake: u64,
    /// Largest acceptable stake, inclusive; `None` means unbounded.
    pub max_stake: Option<u64>,
    /// When set, every stake must equal the stake committed first.
    pub equal_stakes: bool,
}

/// One player's committed stake.  Created on the first valid commit for the
/// player and never removed.
#[derive(Clone, Copy, Debug, PartialEq, Eq)]
pub struct PlayerStake {
    pub player_id: PlayerId,
    pub amount: u64,
    /// Optional denomination marker; `None` means the native unit.
    pub token_mint: Option<u64>,
    pub committed: bool,
    /// Clock reading supplied by the caller when the stake was committed.
    pub committed_at: u64,
}

/// One entry of a computed pot distribution.
#[derive(Clone, Copy, Debug, PartialEq, Eq)]
pub struct Payout {
    pub player_id: PlayerId,
    pub amount: u64,
    /// 1 for the winner; ties rank every refunded staker 1.
    pub rank: u8,
    /// Share of the pot in whole percent.
    pub percentage: u8,
}

/// The wagering sub-state embedded in a session.
#[derive(Debug, PartialEq)]
pub struct WageringState {
    pub config: WageringConfig,
    /// Stakes in order of commitment, at most one per player.
    pub player_stakes: Vec<PlayerStake>,
    /// Sum of all committed stake amounts.
    pub total_pot: u64,
    /// One-way latch: set once every session player has a committed stake.
    pub stakes_committed: bool,
    /// Computed distribution; written exactly once, at session end.
    pub payouts: Option<Vec<Payout>>,
}

/// The mathematical model of a [`WageringState`]: the same data with the
/// stake and payout lists as sequences.
#[verifier::ext_equal]
pub ghost struct WageringStateModel {
    pub config: WageringConfig,
    pub player_stakes: Seq<PlayerStake>,
    pub total_pot: u64,
    pub stakes_committed: bool,
    pub payouts: Option<Seq<Payout>>,
}

impl View for WageringState {
    type V = WageringStateModel;

    open spec fn view(&self) -> WageringStateModel {
        WageringStateModel {
            config: self.config,
            player_stakes: self.player_stakes@,
            total_pot: self.total_pot,
            stakes_committed: self.stakes_committed,
            payouts: match self.payouts {
                Some(ps) => Some(ps@),
                None => None,
            },
        }
    }
}

/// Whether some stake in `stakes` belongs to `player`.
pub open spec fn spec_has_stake(stakes: Seq<PlayerStake>, player: PlayerId) -> bool {
    exists|i: int| 0 <= i < stakes.len() && stakes[i].player_id == player
}

/// Sum of the stake amounts, as an unbounded integer.
pub open spec fn spec_sum_stakes(stakes: Seq<PlayerStake>) -> int
    decreases stakes.len(),
{
    if stakes.len() == 0 {
        0
    } else {
        spec_sum_stakes(stakes.drop_last()) + stakes.last().amount
    }
}

/// Sum of the payout amounts, as an unbounded integer.
pub open spec fn spec_sum_payouts(payouts: Seq<Payout>) -> int
    decreases payouts.len(),
{
    if payouts.len() == 0 {
        0
    } else {
        spec_sum_payouts(payouts.drop_last()) + payouts.last().amount
    }
}

impl WageringStateModel {
    /// Well-formedness relative to the session's player list: at most one
    /// stake per player, stakes only from session players and all marked
    /// committed, the pot is exactly the sum of the stakes, the
    /// `stakes_committed` latch holds exactly when every player has staked,
    /// and payouts never exceed the pot.
    pub open spec fn wf(self, players: Seq<PlayerId>) -> bool {
        &&& forall|i: int, j: int|
            0 <= i < j < self.player_stakes.len() ==> self.player_stakes[i].player_id
                != self.player_stakes[j].player_id
        &&& forall|i: int|
            0 <= i < self.player_stakes.len() ==> players.contains(
                #[trigger] self.player_stakes[i].player_id,
            ) && self.player_stakes[i].committed
        &&& self.total_pot == spec_sum_stakes(self.player_stakes)
        &&& self.stakes_committed <==> self.player_stakes.len() == players.len()
        &&& self.payouts matches Some(ps) ==> spec_sum_payouts(ps) <= self.total_pot
    }
}

impl WageringState {
    /// A fresh wagering state for a newly created session.
    pub fn new(config: WageringConfig) -> (r: WageringState)
        ensures
            r.config == config,
            r.player_stakes@ =~= Seq::<PlayerStake>::empty(),
            r.total_pot == 0,
            !r.stakes_committed,
            r.payouts is None,
            forall|players: Seq<PlayerId>| players.len() >= 1 ==> r@.wf(players),
    {
        let r = WageringState {
            config,
            player_stakes: Vec::new(),
            total_pot: 0,
            stakes_committed: false,
            payouts: None,
        };
        r
    }
}

/// The default stake acceptance rule: the player must belong to the session,
/// must not have committed before, the amount must lie within the configured
/// bounds, and under `equal_stakes` it must match the first committed stake.
/// The result is `Ok` exactly when all of that holds.
pub open spec fn spec_stake_validation(
    players: Seq<PlayerId>,
    ws: WageringStateModel,
    player: PlayerId,
    amount: u64,
) -> Result<(), GameError> {
    if !players.contains(player) {
        Err(GameError::PlayerNotInGame)
    } else if spec_has_stake(ws.player_stakes, player) {
        Err(GameError::StakeAlreadyCommitted)
    } else if amount < ws.config.min_stake {
        Err(GameError::StakeBelowMinimum)
    } else if ws.config.max_stake matches Some(mx) && amount > mx {
        Err(GameError::StakeAboveMaximum)
    } else if ws.config.equal_stakes && ws.player_stakes.len() > 0 && amount
        != ws.player_stakes[0].amount {
        Err(GameError::UnequalStake)
    } else {
        Ok(())
    }
}

/// The default payout rule, given the finished session's winner.  Modes:
/// `WinnerTakesAll` pays the whole pot to a decisive winner with
/// `percentage` 100; a tie refunds every committed staker their own stake
/// with `percentage` `100 / stakers`; `SplitPot` is rejected because the
/// runner-up is game-specific.
pub open spec fn spec_default_payouts(ws: WageringStateModel, winner: Option<PlayerId>) -> Result<
    Seq<Payout>,
    GameError,
> {
    match ws.config.wagering_type {
        WageringType::WinnerTakesAll => match winner {
            Some(w) => Ok(
                seq![
                    Payout { player_id: w, amount: ws.total_pot, rank: 1, percentage: 100 },
                ],
            ),
            None => if ws.player_stakes.len() == 0 {
                Ok(Seq::<Payout>::empty())
            } else {
                Ok(
                    spec_refund_payouts(
                        ws.player_stakes,
                        (100int / ws.player_stakes.len() as int) as u8,
                    ),
                )
            },
        },
        WageringType::SplitPot { .. } => Err(GameError::PayoutsUnsupported),
    }
}

/// The tie distribution: each committed staker gets their own stake back.
pub open spec fn spec_refund_payouts(stakes: Seq<PlayerStake>, percentage: u8) -> Seq<Payout> {
    stakes.map_values(
        |st: PlayerStake| Payout { player_id: st.player_id, amount: st.amount, rank: 1, percentage },
    )
}

/// Whether a `player` of the session already committed a stake.
pub fn has_stake(stakes: &Vec<PlayerStake>, player: PlayerId) -> (r: bool)
    ensures
        r == spec_has_stake(stakes@, player),
{
    let mut i: usize = 0;
    while i < stakes.len()
        invariant
            i <= stakes.len(),
            forall|j: int| 0 <= j < i ==> stakes@[j].player_id != player,
        decreases stakes.len() - i,
    {
        if stakes[i].player_id == player {
            return true;
        }
        i = i + 1;
    }
    false
}

/// Whether `players` contains `player`.
pub fn contains_player(players: &Vec<PlayerId>, player: PlayerId) -> (r: bool)
    ensures
        r == players@.contains(player),
{
    let mut i: usize = 0;
    while i < players.len()
        invariant
            i <= players.len(),
            forall|j: int| 0 <= j < i ==> players@[j] != player,
        decreases players.len() - i,
    {
        if players[i] == player {
            return true;
        }
        i = i + 1;
    }
    false
}

/// Checks a stake offer against the default acceptance rule.
pub fn validate_stake_rules(
    players: &Vec<PlayerId>,
    ws: &WageringState,
    player: PlayerId,
    amount: u64,
) -> (r: Result<(), GameError>)
    ensures
        r == spec_stake_validation(players@, ws@, player, amount),
{
    if !contains_player(players, player) {
        return Err(GameError::PlayerNotInGame);
    }
    if has_stake(&ws.player_stakes, player) {
        return Err(GameError::StakeAlreadyCommitted);
    }
    if amount < ws.config.min_stake {
        return Err(GameError::StakeBelowMinimum);
    }
    if let Some(mx) = ws.config.max_stake {
        if amount > mx {
            return Err(GameError::StakeAboveMaximum);
        }
    }
    if ws.config.equal_stakes && ws.player_stakes.len() > 0 && amount
        != ws.player_stakes[0].amount {
        return Err(GameError::UnequalStake);
    }
    Ok(())
}

/// Computes the default pot distribution for a finished session.
pub fn compute_default_payouts(ws: &WageringState, winner: Option<PlayerId>) -> (r: Result<
    Vec<Payout>,
    GameError,
>)
    ensures
        match r {
            Ok(ps) => spec_default_payouts(ws@, winner) == Ok::<Seq<Payout>, GameError>(ps@),
            Err(e) => spec_default_payouts(ws@, winner) == Err::<Seq<Payout>, GameError>(e),
        },
{
    match ws.config.wagering_type {
        WageringType::WinnerTakesAll => {
            match winner {
                Some(w) => {
                    let mut out: Vec<Payout> = Vec::new();
                    out.push(Payout { player_id: w, amount: ws.total_pot, rank: 1, percentage: 100 });
                    assert(out@ =~= spec_default_payouts(ws@, winner).unwrap());
                    Ok(out)
                },
                None => {
                    let n = ws.player_stakes.len();
                    if n == 0 {
                        let out: Vec<Payout> = Vec::new();
                        assert(out@ =~= spec_default_payouts(ws@, winner).unwrap());
                        return Ok(out);
                    }
                    let percentage = (100 / n) as u8;
                    let mut out: Vec<Payout> = Vec::new();
                    let mut i: usize = 0;
                    while i < ws.player_stakes.len()
                        invariant
                            i <= ws.player_stakes.len(),
                            out@ =~= spec_refund_payouts(
                                ws.player_stakes@.subrange(0, i as int),
                                percentage,
                            ),
                        decreases ws.player_stakes.len() - i,
                    {
                        let st = ws.player_stakes[i];
                        out.push(
                            Payout {
                                player_id: st.player_id,
                                amount: st.amount,
                                rank: 1,
                                percentage,
                            },
                        );
                        assert(ws.player_stakes@.subrange(0, i + 1 as int) =~= ws.player_stakes@
                            .subrange(0, i as int).push(st));
                        i = i + 1;
                    }
                    assert(ws.player_stakes@.subrange(0, ws.player_stakes@.len() as int)
                        =~= ws.player_stakes@);
                    Ok(out)
                },
            }
        },
        WageringType::SplitPot { .. } => Err(GameError::PayoutsUnsupported),
    }
}

/// Law: the default payouts never distribute more than the pot.  With
/// `WinnerTakesAll` the distribution is exact: a decisive winner receives
/// the whole pot as a single rank-1, 100-percent payout, and a tie pays the
/// pot out in full as refunds.
pub proof fn lemma_default_payouts_conserve_pot(
    ws: WageringStateModel,
    winner: Option<PlayerId>,
    players: Seq<PlayerId>,
)
    requires
        ws.wf(players),
    ensures
        spec_default_payouts(ws, winner) matches Ok(ps) ==> spec_sum_payouts(ps) <= ws.total_pot,
        ws.config.wagering_type is WinnerTakesAll ==> match winner {
            Some(w) => spec_default_payouts(ws, winner) matches Ok(ps) && ps.len() == 1 && ps[0]
                == (Payout { player_id: w, amount: ws.total_pot, rank: 1, percentage: 100 }),
            None => spec_default_payouts(ws, winner) matches Ok(ps) && spec_sum_payouts(ps)
                == ws.total_pot,
        },
{
    match ws.config.wagering_type {
        WageringType::WinnerTakesAll => match winner {
            Some(w) => {
                let ps = spec_default_payouts(ws, winner).unwrap();
                assert(ps.len() == 1);
                assert(ps.last() == (Payout {
                    player_id: w,
                    amount: ws.total_pot,
                    rank: 1,
                    percentage: 100,
                }));
                assert(ps.drop_last() =~= Seq::<Payout>::empty());
                assert(spec_sum_payouts(Seq::<Payout>::empty()) == 0);
                assert(spec_sum_payouts(ps) == ws.total_pot);
            },
            None => {
                if ws.player_stakes.len() == 0 {
                    let ps = spec_default_payouts(ws, winner).unwrap();
                    assert(spec_sum_payouts(ps) == 0);
                } else {
                    let pct = (100int / ws.player_stakes.len() as int) as u8;
                    lemma_refund_payouts_sum(ws.player_stakes, pct);
                    let ps = spec_default_payouts(ws, winner).unwrap();
                    assert(spec_sum_payouts(ps) == ws.total_pot);
                }
            },
        },
        WageringType::SplitPot { .. } => {},
    }
}

/// The refund distribution pays out exactly the sum of the stakes.
proof fn lemma_refund_payouts_sum(stakes: Seq<PlayerStake>, percentage: u8)
    ensures
        spec_sum_payouts(spec_refund_payouts(stakes, percentage)) == spec_sum_stakes(stakes),
    decreases stakes.len(),
{
    if stakes.len() == 0 {
        assert(spec_refund_payouts(stakes, percentage) =~= Seq::<Payout>::empty());
    } else {
        lemma_refund_payouts_sum(stakes.drop_last(), percentage);
        assert(spec_refund_payouts(stakes, percentage).drop_last() =~= spec_refund_payouts(
            stakes.drop_last(),
            percentage,
        ));
    }
}

} // verus!
