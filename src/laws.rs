use vstd::prelude::*;

use crate::address::Address;
use crate::errors::SatoshiError;
use crate::instructions::{
    claim_result, configured, force_result, join_result, one_side_moved, opened, play_result,
    resolve_result, timed_out,
};
use crate::rules::{beats, lose_one, outcome_of, treasury_fee_of, RoundOutcome};
use crate::state::{GameSessionHealth, PlayerAction};

verus! {

/// Taking a point of health never goes below zero and never raises it.
pub proof fn lemma_lose_one_saturates(h: int)
    requires
        h >= 0,
    ensures
        0 <= lose_one(h) <= h,
        h > 0 ==> lose_one(h) == h - 1,
        h == 0 ==> lose_one(h) == 0,
        lose_one(lose_one(h)) <= lose_one(h),
{
}

/// Between two real moves, the round is a draw exactly when they are equal,
/// and otherwise exactly one side beats the other.
pub proof fn lemma_outcome_matrix(c: PlayerAction, p: PlayerAction)
    requires
        c != PlayerAction::NoAction,
        p != PlayerAction::NoAction,
    ensures
        (outcome_of(c, p) == RoundOutcome::Draw) <==> c == p,
        (outcome_of(c, p) == RoundOutcome::CreatorWins) <==> beats(c, p),
        (outcome_of(c, p) == RoundOutcome::PlayerWins) <==> beats(p, c),
        !(beats(c, p) && beats(p, c)),
{
}

/// Resolving a round moves health exactly as the dominance matrix says: a
/// draw changes no counter, otherwise only the loser drops by one (never
/// below zero). A missing move is refused.
pub proof fn lemma_resolve_follows_matrix(g: GameSessionHealth)
    requires
        !g.is_over(),
    ensures
        g.creator_action == PlayerAction::NoAction || g.player_action == PlayerAction::NoAction
            ==> resolve_result(g) == Err::<GameSessionHealth, SatoshiError>(
            SatoshiError::IncompleteTurn,
        ),
        g.creator_action != PlayerAction::NoAction && g.player_action != PlayerAction::NoAction
            ==> (resolve_result(g) matches Ok(h) && {
            &&& g.creator_action == g.player_action ==> h.creator_health == g.creator_health
                && h.player_health == g.player_health
            &&& beats(g.creator_action, g.player_action) ==> h.creator_health
                == g.creator_health && h.player_health == lose_one(g.player_health as int)
            &&& beats(g.player_action, g.creator_action) ==> h.player_health == g.player_health
                && h.creator_health == lose_one(g.creator_health as int)
        }),
{
}

/// A newly opened session is well formed.
pub proof fn lemma_opened_wf(creator: Address, total_health: u8, pool_amount: u64)
    ensures
        opened(creator, total_health, pool_amount).wf(),
{
}

/// Every accepted step of a session keeps it well formed, keeps the stake
/// and the starting health, and only joining ever raises a health counter.
pub proof fn lemma_steps_keep_invariant(
    g: GameSessionHealth,
    who: Address,
    action: PlayerAction,
    now: i64,
)
    requires
        g.wf(),
    ensures
        join_result(g, who) matches Ok(h) ==> h.wf() && h.pool_amount == g.pool_amount
            && h.total_health == g.total_health && h.creator_health == g.creator_health,
        play_result(g, who, action, now) matches Ok(h) ==> h.wf() && h.pool_amount
            == g.pool_amount && h.total_health == g.total_health && h.creator_health
            == g.creator_health && h.player_health == g.player_health,
        resolve_result(g) matches Ok(h) ==> h.wf() && h.pool_amount == g.pool_amount
            && h.total_health == g.total_health && h.creator_health <= g.creator_health
            && h.player_health <= g.player_health,
        force_result(g, now) matches Ok(h) ==> h.wf() && h.pool_amount == g.pool_amount
            && h.total_health == g.total_health && h.creator_health <= g.creator_health
            && h.player_health <= g.player_health,
        claim_result(g, who) matches Ok(h) ==> h.wf() && h.pool_amount == g.pool_amount
            && h.creator_health == g.creator_health && h.player_health == g.player_health,
{
}

/// When a round brings a counter to zero, the winner is recorded as the
/// opposite participant.
pub proof fn lemma_winner_is_opponent(g: GameSessionHealth, now: i64)
    requires
        g.wf(),
    ensures
        resolve_result(g) matches Ok(h) ==> h.is_over() ==> {
            &&& h.creator_health == 0 ==> h.winner == g.player
            &&& h.creator_health != 0 ==> h.player_health == 0 && h.winner == Some(g.creator)
        },
        force_result(g, now) matches Ok(h) ==> h.is_over() ==> {
            &&& h.creator_health == 0 ==> h.winner == g.player
            &&& h.creator_health != 0 ==> h.player_health == 0 && h.winner == Some(g.creator)
        },
{
}

/// A finished game is final: nobody can move, no round can be forced, and
/// resolving again changes nothing.
pub proof fn lemma_finished_game_is_final(
    g: GameSessionHealth,
    who: Address,
    action: PlayerAction,
    now: i64,
)
    requires
        g.is_over(),
    ensures
        play_result(g, who, action, now) is Err,
        force_result(g, now) is Err,
        resolve_result(g) is Err || resolve_result(g) == Ok::<GameSessionHealth, SatoshiError>(
            g,
        ),
{
}

/// The fee and the payout add up to the whole pool of two stakes, for every
/// fee rate from nothing to all of it.
pub proof fn lemma_fee_and_payout_cover_pool(pool_amount: u64, treasury_cut_bps: u16)
    requires
        treasury_cut_bps <= 10000,
    ensures
        0 <= treasury_fee_of(pool_amount as int, treasury_cut_bps as int) <= 2 * pool_amount,
        treasury_fee_of(pool_amount as int, treasury_cut_bps as int) + (2 * pool_amount
            - treasury_fee_of(pool_amount as int, treasury_cut_bps as int)) == 2 * pool_amount,
{
    let t = 2 * pool_amount as int;
    let b = treasury_cut_bps as int;
    assert(0 <= t * b <= t * 10000) by (nonlinear_arith)
        requires
            0 <= t,
            0 <= b <= 10000,
    ;
    assert((t * b) / 10000 <= t) by (nonlinear_arith)
        requires
            0 <= t * b <= t * 10000,
    ;
    assert(0 <= (t * b) / 10000) by (nonlinear_arith)
        requires
            0 <= t * b,
    ;
}

/// A stalled round is forced exactly when the timeout has passed and exactly
/// one side of a live, joined game has moved; either side may be the one
/// that stalled, and it is the one that loses the point. A round in which
/// nobody has moved is refused whatever the elapsed time.
pub proof fn lemma_force_only_on_one_sided_stall(g: GameSessionHealth, now: i64)
    ensures
        force_result(g, now) is Ok <==> timed_out(g, now) && g.player is Some && !g.is_over()
            && one_side_moved(g),
        force_result(g, now) matches Ok(h) ==> {
            &&& h.creator_action == PlayerAction::NoAction
            &&& h.player_action == PlayerAction::NoAction
            &&& h.last_turn_timestamp == now
            &&& g.player_action == PlayerAction::NoAction ==> h.player_health == lose_one(
                g.player_health as int,
            ) && h.creator_health == g.creator_health
            &&& g.creator_action == PlayerAction::NoAction ==> h.creator_health == lose_one(
                g.creator_health as int,
            ) && h.player_health == g.player_health
        },
        g.creator_action == PlayerAction::NoAction && g.player_action == PlayerAction::NoAction
            ==> force_result(g, now) == Err::<GameSessionHealth, SatoshiError>(
            SatoshiError::InvalidForceResolve,
        ),
        !timed_out(g, now) && (g.creator_action != PlayerAction::NoAction || g.player_action
            != PlayerAction::NoAction) ==> force_result(g, now) == Err::<
            GameSessionHealth,
            SatoshiError,
        >(SatoshiError::NotTimedOut),
        timed_out(g, now) && !one_side_moved(g) ==> force_result(g, now) == Err::<
            GameSessionHealth,
            SatoshiError,
        >(SatoshiError::InvalidForceResolve),
{
}

/// The configuration written by the first call records its caller as owner
/// and keeps a fee rate within the whole pool.
pub proof fn lemma_configured_wf(
    authority: Address,
    token_mint: Address,
    treasury: Address,
    treasury_cut_bps: u16,
)
    requires
        treasury_cut_bps <= 10000,
    ensures
        configured(authority, token_mint, treasury, treasury_cut_bps).wf(),
        configured(authority, token_mint, treasury, treasury_cut_bps).owner == authority,
{
}

} // verus!
