use vstd::prelude::*;

use crate::address::Address;
use crate::errors::SatoshiError;
use crate::rules::{
    lose_one, outcome_of, round_outcome, split_pool, treasury_fee_of, RoundOutcome,
};
use crate::state::{
    GameSessionHealth, GlobalState, PlayerAction, RewardTransfers, TokenTransfer,
};

verus! {

/// Seconds of silence after the last accepted move before a stalled round
/// may be forced.
pub const TURN_TIMEOUT_SECS: i64 = 180;

/// Accounts for writing the configuration.
pub struct Initialize {
    pub global_state: GlobalState,
    pub authority: Address,
}

/// Accounts for opening a game; `state_account` is the freshly allocated
/// session record.
pub struct InitializeGame {
    pub state_account: GameSessionHealth,
    pub creator_token_account: Address,
    pub vault_token_account: Address,
    pub vault_authority: Address,
    pub token_mint: Address,
    pub signer: Address,
}

/// Accounts for a generic update of a session by a signer.
pub struct UpdateGame {
    pub state_account: GameSessionHealth,
    pub signer: Address,
}

/// Accounts for paying out a finished game.
pub struct ClaimReward {
    pub state_account: GameSessionHealth,
    pub claimer: Address,
    pub vault_token_account: Address,
    pub token_mint: Address,
    pub vault_authority: Address,
    pub claimer_token_account: Address,
    pub treasury_token_account: Address,
    pub global_state: GlobalState,
}

/// Accounts for joining an open game.
pub struct JoinGame {
    pub player: Address,
    pub player_token_account: Address,
    pub vault_token_account: Address,
    pub state_account: GameSessionHealth,
}

/// Accounts for submitting a move.
pub struct PlayTurn {
    pub signer: Address,
    pub state_account: GameSessionHealth,
}

/// Accounts for settling a round.
pub struct ResolveTurn {
    pub state_account: GameSessionHealth,
}

/// The configuration after a first `initialize`.
pub open spec fn configured(
    authority: Address,
    token_mint: Address,
    treasury: Address,
    treasury_cut_bps: u16,
) -> GlobalState {
    GlobalState { token_mint, treasury, treasury_cut_bps, is_initialized: true, owner: authority }
}

/// A session as its creator opens it: full health for the creator, nobody
/// joined, no move, no winner.
pub open spec fn opened(creator: Address, total_health: u8, pool_amount: u64) -> GameSessionHealth {
    GameSessionHealth {
        creator,
        player: None,
        player_can_play: false,
        creator_can_play: true,
        total_health: total_health as u32,
        player_health: 0,
        creator_health: total_health,
        player_action: PlayerAction::NoAction,
        creator_action: PlayerAction::NoAction,
        pool_amount,
        winner: None,
        last_turn_timestamp: 0,
        reward_claimed: false,
    }
}

pub open spec fn join_result(g: GameSessionHealth, player: Address) -> Result<
    GameSessionHealth,
    SatoshiError,
> {
    if g.player is Some {
        Err(SatoshiError::AlreadyJoined)
    } else {
        Ok(
            with_winner(
                GameSessionHealth {
                    player: Some(player),
                    player_health: g.total_health,
                    player_can_play: true,
                    ..g
                },
            ),
        )
    }
}

pub open spec fn play_result(
    g: GameSessionHealth,
    signer: Address,
    action: PlayerAction,
    now: i64,
) -> Result<GameSessionHealth, SatoshiError> {
    if !g.is_participant(signer) {
        Err(SatoshiError::NotAParticipant)
    } else if action == PlayerAction::NoAction {
        Err(SatoshiError::InvalidAction)
    } else if g.is_over() {
        Err(SatoshiError::NotTurn)
    } else if g.creator@ == signer@ {
        if g.creator_action != PlayerAction::NoAction {
            Err(SatoshiError::NotTurn)
        } else {
            Ok(
                GameSessionHealth {
                    creator_action: action,
                    creator_can_play: false,
                    last_turn_timestamp: now,
                    ..g
                },
            )
        }
    } else if g.player_action != PlayerAction::NoAction {
        Err(SatoshiError::NotTurn)
    } else {
        Ok(
            GameSessionHealth {
                player_action: action,
                player_can_play: false,
                last_turn_timestamp: now,
                ..g
            },
        )
    }
}

/// Records the winner if a counter has reached zero.
pub open spec fn with_winner(g: GameSessionHealth) -> GameSessionHealth {
    if g.is_over() {
        GameSessionHealth { winner: g.decided_winner(), ..g }
    } else {
        g
    }
}

/// Clears both moves for a new round.
pub open spec fn fresh_round(g: GameSessionHealth) -> GameSessionHealth {
    GameSessionHealth {
        creator_action: PlayerAction::NoAction,
        player_action: PlayerAction::NoAction,
        creator_can_play: true,
        player_can_play: true,
        ..g
    }
}

/// The round's loser gives up one point of health.
pub open spec fn scored(g: GameSessionHealth) -> GameSessionHealth {
    let o = outcome_of(g.creator_action, g.player_action);
    GameSessionHealth {
        creator_health: if o == RoundOutcome::PlayerWins {
            lose_one(g.creator_health as int) as u8
        } else {
            g.creator_health
        },
        player_health: if o == RoundOutcome::CreatorWins {
            lose_one(g.player_health as int) as u32
        } else {
            g.player_health
        },
        ..g
    }
}

pub open spec fn resolve_result(g: GameSessionHealth) -> Result<GameSessionHealth, SatoshiError> {
    if g.creator_action == PlayerAction::NoAction || g.player_action == PlayerAction::NoAction {
        Err(SatoshiError::IncompleteTurn)
    } else if g.is_over() {
        Ok(g)
    } else {
        let h = scored(g);
        if h.is_over() {
            Ok(with_winner(h))
        } else {
            Ok(fresh_round(h))
        }
    }
}

/// The side that did not move loses a point; the round restarts at `now`.
pub open spec fn forfeited(g: GameSessionHealth, now: i64) -> GameSessionHealth {
    let h = if g.creator_action != PlayerAction::NoAction {
        GameSessionHealth { player_health: lose_one(g.player_health as int) as u32, ..g }
    } else {
        GameSessionHealth { creator_health: lose_one(g.creator_health as int) as u8, ..g }
    };
    with_winner(GameSessionHealth { last_turn_timestamp: now, ..fresh_round(h) })
}

/// Exactly one of the two sides has moved.
pub open spec fn one_side_moved(g: GameSessionHealth) -> bool {
    (g.creator_action == PlayerAction::NoAction) != (g.player_action == PlayerAction::NoAction)
}

pub open spec fn timed_out(g: GameSessionHealth, now: i64) -> bool {
    now as int - g.last_turn_timestamp as int >= TURN_TIMEOUT_SECS as int
}

pub open spec fn force_result(g: GameSessionHealth, now: i64) -> Result<
    GameSessionHealth,
    SatoshiError,
> {
    if g.creator_action == PlayerAction::NoAction && g.player_action == PlayerAction::NoAction {
        Err(SatoshiError::InvalidForceResolve)
    } else if !timed_out(g, now) {
        Err(SatoshiError::NotTimedOut)
    } else if g.player is None || g.is_over() || !one_side_moved(g) {
        Err(SatoshiError::InvalidForceResolve)
    } else {
        Ok(forfeited(g, now))
    }
}

pub open spec fn claim_result(g: GameSessionHealth, claimer: Address) -> Result<
    GameSessionHealth,
    SatoshiError,
> {
    if !g.is_over() {
        Err(SatoshiError::GameNotOver)
    } else if g.decided_winner()->Some_0@ != claimer@ {
        Err(SatoshiError::NotWinner)
    } else if g.reward_claimed {
        Err(SatoshiError::AlreadyClaimed)
    } else {
        Ok(GameSessionHealth { reward_claimed: true, ..g })
    }
}

/// Pays out a finished game: the treasury's fee and the winner's share of
/// the pool, both moved out of the vault under the vault's own authority.
/// The session is marked as paid so that a second claim is refused.
pub fn claim_reward(ctx: &mut ClaimReward) -> (r: Result<RewardTransfers, SatoshiError>)
    requires
        old(ctx).state_account.pool_amount <= u64::MAX / 2,
        old(ctx).global_state.wf(),
    ensures
        match claim_result(old(ctx).state_account, old(ctx).claimer) {
            Ok(g) => {
                &&& r matches Ok(t)
                &&& final(ctx).state_account == g
                &&& t.treasury_fee == (TokenTransfer {
                    from: old(ctx).vault_token_account,
                    to: old(ctx).treasury_token_account,
                    authority: old(ctx).vault_authority,
                    amount: t.treasury_fee.amount,
                })
                &&& t.winner_payout == (TokenTransfer {
                    from: old(ctx).vault_token_account,
                    to: old(ctx).claimer_token_account,
                    authority: old(ctx).vault_authority,
                    amount: t.winner_payout.amount,
                })
                &&& t.treasury_fee.amount == treasury_fee_of(
                    old(ctx).state_account.pool_amount as int,
                    old(ctx).global_state.treasury_cut_bps as int,
                )
                &&& t.treasury_fee.amount + t.winner_payout.amount == 2
                    * old(ctx).state_account.pool_amount
            },
            Err(e) => r == Err::<RewardTransfers, SatoshiError>(e) && final(ctx).state_account
                == old(ctx).state_account,
        },
        final(ctx).global_state == old(ctx).global_state,
        final(ctx).claimer == old(ctx).claimer,
        old(ctx).state_account.wf() ==> final(ctx).state_account.wf(),
{
    let game = ctx.state_account;
    let winner = match game.current_winner() {
        Some(w) => w,
        None => {
            return Err(SatoshiError::GameNotOver);
        },
    };
    if !winner.same_as(&ctx.claimer) {
        return Err(SatoshiError::NotWinner);
    }
    if game.reward_claimed {
        return Err(SatoshiError::AlreadyClaimed);
    }
    let (treasury_fee, winner_amount) = split_pool(
        game.pool_amount,
        ctx.global_state.treasury_cut_bps,
    );
    ctx.state_account = GameSessionHealth { reward_claimed: true, ..game };
    Ok(
        RewardTransfers {
            treasury_fee: TokenTransfer {
                from: ctx.vault_token_account,
                to: ctx.treasury_token_account,
                authority: ctx.vault_authority,
                amount: treasury_fee,
            },
            winner_payout: TokenTransfer {
                from: ctx.vault_token_account,
                to: ctx.claimer_token_account,
                authority: ctx.vault_authority,
                amount: winner_amount,
            },
        },
    )
}

/// Settles a round in which both sides have moved: the loser under the
/// dominance matrix gives up one point of health (never below zero). If a
/// counter reaches zero the winner is recorded and the moves stay as they
/// are; otherwise both moves are cleared for the next round. A game that is
/// already over is left as it is.
pub fn resolve_turn(ctx: &mut ResolveTurn) -> (r: Result<(), SatoshiError>)
    ensures
        match resolve_result(old(ctx).state_account) {
            Ok(g) => r is Ok && final(ctx).state_account == g,
            Err(e) => r == Err::<(), SatoshiError>(e) && final(ctx).state_account == old(
                ctx,
            ).state_account,
        },
        old(ctx).state_account.wf() ==> final(ctx).state_account.wf(),
{
    let game = ctx.state_account;
    if game.creator_action == PlayerAction::NoAction {
        return Err(SatoshiError::IncompleteTurn);
    }
    if game.player_action == PlayerAction::NoAction {
        return Err(SatoshiError::IncompleteTurn);
    }
    if game.game_over() {
        return Ok(());
    }
    let mut next = game;
    match round_outcome(game.creator_action, game.player_action) {
        RoundOutcome::CreatorWins => {
            next.player_health = game.player_health.saturating_sub(1);
        },
        RoundOutcome::PlayerWins => {
            next.creator_health = game.creator_health.saturating_sub(1);
        },
        RoundOutcome::Draw => {},
    }
    if next.game_over() {
        next.winner = next.current_winner();
    } else {
        next.creator_action = PlayerAction::NoAction;
        next.player_action = PlayerAction::NoAction;
        next.creator_can_play = true;
        next.player_can_play = true;
    }
    ctx.state_account = next;
    Ok(())
}

/// Submits the signer's move for the current round, at time `now`. Each side
/// moves once per round, in either order.
/// An empty move is refused.
pub fn play_turn(ctx: &mut PlayTurn, action: PlayerAction, now: i64) -> (r: Result<
    (),
    SatoshiError,
>)
    ensures
        match play_result(old(ctx).state_account, old(ctx).signer, action, now) {
            Ok(g) => r is Ok && final(ctx).state_account == g,
            Err(e) => r == Err::<(), SatoshiError>(e) && final(ctx).state_account == old(
                ctx,
            ).state_account,
        },
        final(ctx).signer == old(ctx).signer,
        old(ctx).state_account.wf() ==> final(ctx).state_account.wf(),
{
    let game = ctx.state_account;
    let signer = ctx.signer;
    let is_creator = game.creator.same_as(&signer);
    let is_player = match game.player {
        Some(p) => p.same_as(&signer),
        None => false,
    };
    if !is_creator && !is_player {
        return Err(SatoshiError::NotAParticipant);
    }
    if action == PlayerAction::NoAction {
        return Err(SatoshiError::InvalidAction);
    }
    if game.game_over() {
        return Err(SatoshiError::NotTurn);
    }
    let mut next = game;
    if is_creator {
        if game.creator_action != PlayerAction::NoAction {
            return Err(SatoshiError::NotTurn);
        }
        next.creator_action = action;
        next.creator_can_play = false;
    } else {
        if game.player_action != PlayerAction::NoAction {
            return Err(SatoshiError::NotTurn);
        }
        next.player_action = action;
        next.player_can_play = false;
    }
    next.last_turn_timestamp = now;
    ctx.state_account = next;
    Ok(())
}

/// Forces a stalled round at time `now`: once the timeout has passed since
/// the last accepted move, and exactly one side has moved, the side that did
/// not move loses a point of health and a new round starts. A round in which
/// nobody has moved is never forced, however long it has waited.
pub fn force_resolve_if_timeout(ctx: &mut ResolveTurn, now: i64) -> (r: Result<(), SatoshiError>)
    ensures
        match force_result(old(ctx).state_account, now) {
            Ok(g) => r is Ok && final(ctx).state_account == g,
            Err(e) => r == Err::<(), SatoshiError>(e) && final(ctx).state_account == old(
                ctx,
            ).state_account,
        },
        old(ctx).state_account.wf() ==> final(ctx).state_account.wf(),
{
    let game = ctx.state_account;
    if game.creator_action == PlayerAction::NoAction && game.player_action
        == PlayerAction::NoAction {
        return Err(SatoshiError::InvalidForceResolve);
    }
    let elapsed: i128 = now as i128 - game.last_turn_timestamp as i128;
    if elapsed < TURN_TIMEOUT_SECS as i128 {
        return Err(SatoshiError::NotTimedOut);
    }
    if game.player.is_none() || game.game_over() {
        return Err(SatoshiError::InvalidForceResolve);
    }
    let creator_moved = game.creator_action != PlayerAction::NoAction;
    let player_moved = game.player_action != PlayerAction::NoAction;
    let mut next = game;
    if creator_moved && !player_moved {
        next.player_health = game.player_health.saturating_sub(1);
    } else if player_moved && !creator_moved {
        next.creator_health = game.creator_health.saturating_sub(1);
    } else {
        return Err(SatoshiError::InvalidForceResolve);
    }
    next.creator_action = PlayerAction::NoAction;
    next.player_action = PlayerAction::NoAction;
    next.creator_can_play = true;
    next.player_can_play = true;
    next.last_turn_timestamp = now;
    if next.game_over() {
        next.winner = next.current_winner();
    }
    ctx.state_account = next;
    Ok(())
}

/// Lets a second participant into an open game, with the session's starting
/// health. The returned transfer escrows the session's own stake from the
/// player into the vault.
pub fn join_game(ctx: &mut JoinGame) -> (r: Result<TokenTransfer, SatoshiError>)
    ensures
        match join_result(old(ctx).state_account, old(ctx).player) {
            Ok(g) => r == Ok::<TokenTransfer, SatoshiError>(
                TokenTransfer {
                    from: old(ctx).player_token_account,
                    to: old(ctx).vault_token_account,
                    authority: old(ctx).player,
                    amount: old(ctx).state_account.pool_amount,
                },
            ) && final(ctx).state_account == g,
            Err(e) => r == Err::<TokenTransfer, SatoshiError>(e) && final(ctx).state_account
                == old(ctx).state_account,
        },
        final(ctx).player == old(ctx).player,
        old(ctx).state_account.wf() ==> final(ctx).state_account.wf(),
{
    let game = ctx.state_account;
    if game.player.is_some() {
        return Err(SatoshiError::AlreadyJoined);
    }
    let escrow = TokenTransfer {
        from: ctx.player_token_account,
        to: ctx.vault_token_account,
        authority: ctx.player,
        amount: game.pool_amount,
    };
    let mut next = GameSessionHealth {
        player: Some(ctx.player),
        player_health: game.total_health,
        player_can_play: true,
        ..game
    };
    if next.game_over() {
        next.winner = next.current_winner();
    }
    ctx.state_account = next;
    Ok(escrow)
}

/// Opens a game with the signer as creator. The returned transfer escrows
/// the creator's stake into the vault.
pub fn initialize_game(ctx: &mut InitializeGame, total_health: u8, pool_amount: u64) -> (r:
    TokenTransfer)
    ensures
        final(ctx).state_account == opened(old(ctx).signer, total_health, pool_amount),
        final(ctx).state_account.wf(),
        r == (TokenTransfer {
            from: old(ctx).creator_token_account,
            to: old(ctx).vault_token_account,
            authority: old(ctx).signer,
            amount: pool_amount,
        }),
        final(ctx).signer == old(ctx).signer,
{
    let escrow = TokenTransfer {
        from: ctx.creator_token_account,
        to: ctx.vault_token_account,
        authority: ctx.signer,
        amount: pool_amount,
    };
    ctx.state_account = GameSessionHealth {
        creator: ctx.signer,
        player: None,
        player_can_play: false,
        creator_can_play: true,
        total_health: total_health as u32,
        player_health: 0,
        creator_health: total_health,
        player_action: PlayerAction::NoAction,
        creator_action: PlayerAction::NoAction,
        pool_amount,
        winner: None,
        last_turn_timestamp: 0,
        reward_claimed: false,
    };
    escrow
}

/// Writes the configuration once, with the caller as owner. A fee rate above
/// the whole pool is refused.
pub fn initialize(
    ctx: &mut Initialize,
    token_mint: Address,
    treasury: Address,
    treasury_cut_bps: u16,
) -> (r: Result<(), SatoshiError>)
    ensures
        old(ctx).global_state.is_initialized ==> r == Err::<(), SatoshiError>(
            SatoshiError::AlreadyInitialized,
        ) && final(ctx).global_state == old(ctx).global_state,
        !old(ctx).global_state.is_initialized && treasury_cut_bps > 10000 ==> r == Err::<
            (),
            SatoshiError,
        >(SatoshiError::InvalidFeeRate) && final(ctx).global_state == old(ctx).global_state,
        !old(ctx).global_state.is_initialized && treasury_cut_bps <= 10000 ==> r is Ok
            && final(ctx).global_state == configured(
            old(ctx).authority,
            token_mint,
            treasury,
            treasury_cut_bps,
        ) && final(ctx).global_state.wf(),
        final(ctx).authority == old(ctx).authority,
{
    if ctx.global_state.is_initialized {
        return Err(SatoshiError::AlreadyInitialized);
    }
    if treasury_cut_bps > 10000 {
        return Err(SatoshiError::InvalidFeeRate);
    }
    ctx.global_state = GlobalState {
        token_mint,
        treasury,
        treasury_cut_bps,
        is_initialized: true,
        owner: ctx.authority,
    };
    Ok(())
}

} // verus!
