//! The values the contract stores and reports.

use vstd::prelude::*;
use crate::table::Table;

verus! {

/// An account or contract on the ledger, by the number that stands for it.
pub type AccountId = u64;

#[derive(Clone, Copy, Debug, PartialEq, Eq, Structural)]
pub enum MarketStatus {
    Active,
    PendingResolution,
    Resolved,
    Cancelled,
}

#[derive(Clone, Copy, Debug, PartialEq, Eq, Structural)]
pub enum MarketTier {
    Basic,
    Pro,
    Institutional,
}

#[derive(Clone, Copy, Debug, PartialEq, Eq, Structural)]
pub enum ErrorCode {
    NotAuthorized,
    ContractPaused,
    MarketNotFound,
    MarketNotActive,
    MarketStillActive,
    MarketNotPendingResolution,
    ParentMarketNotResolved,
    ParentMarketInvalidOutcome,
    DeadlinePassed,
    InvalidOutcome,
    InvalidBetAmount,
    CannotChangeOutcome,
    InsufficientBalance,
    AssetClawedBack,
    /// The asset refused a transfer.
    TransferFailed,
}

/// A bettor's position in one market.
#[derive(Clone, Copy, Debug, PartialEq, Eq, Structural)]
pub struct Bet {
    pub market_id: u64,
    pub bettor: AccountId,
    pub outcome: u32,
    pub amount: i128,
}

impl View for Bet {
    type V = Bet;

    open spec fn view(&self) -> Bet {
        *self
    }
}

/// What the betting logic reads and writes of a market.
pub struct Market {
    pub id: u64,
    pub status: MarketStatus,
    /// The market this one is conditional on; 0 for none.
    pub parent_id: u64,
    /// The outcome the parent must have resolved to.
    pub parent_outcome_idx: u32,
    pub winning_outcome: Option<u32>,
    pub deadline: u64,
    /// How many outcomes bets may be placed on.
    pub num_options: u32,
    /// The asset bets on this market are paid in.
    pub token_address: AccountId,
    pub total_staked: i128,
    /// The stake placed on each outcome.
    pub outcome_stakes: Table<u32, i128>,
    pub resolved_at: Option<u64>,
}

pub struct MarketView {
    pub id: u64,
    pub status: MarketStatus,
    pub parent_id: u64,
    pub parent_outcome_idx: u32,
    pub winning_outcome: Option<u32>,
    pub deadline: u64,
    pub num_options: u32,
    pub token_address: AccountId,
    pub total_staked: i128,
    pub outcome_stakes: Map<u32, i128>,
    pub resolved_at: Option<u64>,
}

impl View for Market {
    type V = MarketView;

    open spec fn view(&self) -> MarketView {
        MarketView {
            id: self.id,
            status: self.status,
            parent_id: self.parent_id,
            parent_outcome_idx: self.parent_outcome_idx,
            winning_outcome: self.winning_outcome,
            deadline: self.deadline,
            num_options: self.num_options,
            token_address: self.token_address,
            total_staked: self.total_staked,
            outcome_stakes: self.outcome_stakes@,
            resolved_at: self.resolved_at,
        }
    }
}

/// The stake on `outcome`, 0 where none was recorded.
pub open spec fn stake_on(m: MarketView, outcome: u32) -> int {
    if m.outcome_stakes.dom().contains(outcome) {
        m.outcome_stakes[outcome] as int
    } else {
        0
    }
}

/// What the host tells an invocation about its surroundings.
#[derive(Clone, Copy, Debug)]
pub struct Context {
    /// The ledger's timestamp, in seconds.
    pub now: u64,
    /// The contract's own address.
    pub contract: AccountId,
}

} // verus!
