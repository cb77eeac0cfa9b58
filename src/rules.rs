use vstd::prelude::*;

use crate::state::PlayerAction;

verus! {

/// Who takes a round.
#[derive(Clone, Copy, Debug, PartialEq, Eq, Structural)]
pub enum RoundOutcome {
    Draw,
    CreatorWins,
    PlayerWins,
}

/// Rock beats Scissors, Scissors beats Paper, Paper beats Rock.
pub open spec fn beats(a: PlayerAction, b: PlayerAction) -> bool {
    ||| (a == PlayerAction::Rock && b == PlayerAction::Scissors)
    ||| (a == PlayerAction::Scissors && b == PlayerAction::Paper)
    ||| (a == PlayerAction::Paper && b == PlayerAction::Rock)
}

pub open spec fn outcome_of(creator: PlayerAction, player: PlayerAction) -> RoundOutcome {
    if beats(creator, player) {
        RoundOutcome::CreatorWins
    } else if beats(player, creator) {
        RoundOutcome::PlayerWins
    } else {
        RoundOutcome::Draw
    }
}

/// One less, but never below zero.
pub open spec fn lose_one(h: int) -> int {
    if h > 0 {
        h - 1
    } else {
        0
    }
}

/// The platform's share of a pool of two stakes, rounded down.
pub open spec fn treasury_fee_of(pool_amount: int, treasury_cut_bps: int) -> int {
    (2 * pool_amount * treasury_cut_bps) / 10000
}

/// Scores one round under the dominance matrix.
pub fn round_outcome(creator_action: PlayerAction, player_action: PlayerAction) -> (r:
    RoundOutcome)
    ensures
        r == outcome_of(creator_action, player_action),
{
    match (creator_action, player_action) {
        (PlayerAction::Rock, PlayerAction::Scissors)
        | (PlayerAction::Scissors, PlayerAction::Paper)
        | (PlayerAction::Paper, PlayerAction::Rock) => RoundOutcome::CreatorWins,
        (PlayerAction::Scissors, PlayerAction::Rock)
        | (PlayerAction::Paper, PlayerAction::Scissors)
        | (PlayerAction::Rock, PlayerAction::Paper) => RoundOutcome::PlayerWins,
        _ => RoundOutcome::Draw,
    }
}

/// Splits the pool of two stakes into the treasury's fee and the winner's
/// payout, returned in that order.
pub fn split_pool(pool_amount: u64, treasury_cut_bps: u16) -> (r: (u64, u64))
    requires
        pool_amount <= u64::MAX / 2,
        treasury_cut_bps <= 10000,
    ensures
        r.0 == treasury_fee_of(pool_amount as int, treasury_cut_bps as int),
        r.0 + r.1 == 2 * pool_amount,
{
    let total_pool: u64 = pool_amount * 2;
    assert((total_pool as int) * (treasury_cut_bps as int) <= (u64::MAX as int) * 10000)
        by (nonlinear_arith)
        requires
            0 <= total_pool <= u64::MAX,
            0 <= treasury_cut_bps <= 10000,
    ;
    let scaled: u128 = (total_pool as u128) * (treasury_cut_bps as u128);
    let fee_wide: u128 = scaled / 10000;
    proof {
        let t = total_pool as int;
        let b = treasury_cut_bps as int;
        assert(t * b <= t * 10000) by (nonlinear_arith)
            requires
                0 <= t,
                0 <= b <= 10000,
        ;
        assert((t * b) / 10000 <= t) by (nonlinear_arith)
            requires
                0 <= t * b <= t * 10000,
        ;
        assert(2 * pool_amount * b == t * b);
    }
    let fee: u64 = fee_wide as u64;
    (fee, total_pool - fee)
}

} // verus!
