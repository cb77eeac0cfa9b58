use vstd::prelude::*;

use crate::address::Address;

verus! {

/// The move a participant submits for the current round; `NoAction` means
/// that nothing has been submitted yet.
#[derive(Clone, Copy, Debug, PartialEq, Eq, Structural)]
pub enum PlayerAction {
    NoAction,
    Rock,
    Paper,
    Scissors,
}

/// The program-wide configuration, written once.
#[derive(Clone, Copy, Debug)]
pub struct GlobalState {
    pub token_mint: Address,
    pub treasury: Address,
    /// The platform's cut of a pool, in basis points (10000 is the whole pool).
    pub treasury_cut_bps: u16,
    pub is_initialized: bool,
    pub owner: Address,
}

/// One match between a creator and a player.
#[derive(Clone, Copy, Debug)]
pub struct GameSessionHealth {
    pub creator: Address,
    pub player: Option<Address>,
    pub player_can_play: bool,
    pub creator_can_play: bool,
    pub total_health: u32,
    pub player_health: u32,
    pub creator_health: u8,
    pub player_action: PlayerAction,
    pub creator_action: PlayerAction,
    /// The stake that each side escrows.
    pub pool_amount: u64,
    pub winner: Option<Address>,
    pub last_turn_timestamp: i64,
    /// Set once the winner has been paid, so that a pool is paid out once.
    pub reward_claimed: bool,
}

/// A movement of tokens that the ledger is asked to carry out.
#[derive(Clone, Copy, Debug)]
pub struct TokenTransfer {
    pub from: Address,
    pub to: Address,
    pub authority: Address,
    pub amount: u64,
}

/// The two movements that settle a finished game.
#[derive(Clone, Copy, Debug)]
pub struct RewardTransfers {
    pub treasury_fee: TokenTransfer,
    pub winner_payout: TokenTransfer,
}

impl GlobalState {
    /// The fee rate never exceeds the whole pool.
    pub open spec fn wf(&self) -> bool {
        self.treasury_cut_bps <= 10000
    }
}

impl GameSessionHealth {
    /// Health counters stay within the starting health, a side that has not
    /// joined has neither health nor a move, and the recorded winner is the
    /// one the counters decide.
    pub open spec fn wf(&self) -> bool {
        &&& self.total_health <= u8::MAX
        &&& self.creator_health <= self.total_health
        &&& self.player_health <= self.total_health
        &&& self.player is None ==> self.player_health == 0 && self.player_action
            == PlayerAction::NoAction
        &&& self.winner == self.decided_winner()
    }

    /// A joined game is over once either counter is at zero.
    pub open spec fn is_over(&self) -> bool {
        &&& self.player is Some
        &&& (self.creator_health == 0 || self.player_health == 0)
    }

    /// The side whose opponent has run out of health; the creator's counter
    /// is looked at first.
    pub open spec fn decided_winner(&self) -> Option<Address> {
        if !self.is_over() {
            None
        } else if self.creator_health == 0 {
            self.player
        } else {
            Some(self.creator)
        }
    }

    /// `who` is the creator or the joined player.
    pub open spec fn is_participant(&self, who: Address) -> bool {
        ||| self.creator@ == who@
        ||| (self.player matches Some(p) && p@ == who@)
    }

    /// Executable form of `is_over`.
    pub fn game_over(&self) -> (r: bool)
        ensures
            r == self.is_over(),
    {
        self.player.is_some() && (self.creator_health == 0 || self.player_health == 0)
    }

    /// The winner derived from the health counters, if the game is over.
    pub fn current_winner(&self) -> (r: Option<Address>)
        ensures
            r == self.decided_winner(),
    {
        if !self.game_over() {
            None
        } else if self.creator_health == 0 {
            self.player
        } else {
            Some(self.creator)
        }
    }
}

} // verus!
