//! Events the contract publishes, and the host interactions an operation
//! asks for.  An operation appends them, in the order the contract performs
//! them, to a list that the host side carries out.

use vstd::prelude::*;
use crate::types::AccountId;

verus! {

#[derive(Debug, PartialEq, Eq)]
pub enum Event {
    /// A market was created.
/// Topics: [mkt_creat, market_id, creator]; data: (description, num_outcomes, deadline).
    MarketCreated { market_id: u64, creator: AccountId, description: String, num_outcomes: u32, deadline: u64 },
    /// A bet was placed.
/// Topics: [bet_place, market_id, bettor]; data: (outcome, amount).
    BetPlaced { market_id: u64, bettor: AccountId, outcome: u32, amount: i128 },
    /// A dispute was filed.
/// Topics: [disp_file, market_id, disciplinarian]; data: new_deadline.
    DisputeFiled { market_id: u64, disciplinarian: AccountId, new_deadline: u64 },
    /// A resolution was finalized.
/// Topics: [resolv_fx, market_id, resolver]; data: (winning_outcome, total_payout).
    ResolutionFinalized { market_id: u64, resolver: AccountId, winning_outcome: u32, total_payout: i128 },
    /// Winnings or a refund were paid out.
/// Topics: [reward_fx, market_id, claimer]; data: (amount, token_address, is_refund).
    RewardsClaimed { market_id: u64, claimer: AccountId, amount: i128, token_address: AccountId, is_refund: bool },
    /// A governance vote was cast.
/// Topics: [vote_cast, market_id, voter]; data: (outcome, weight).
    VoteCast { market_id: u64, voter: AccountId, outcome: u32, weight: i128 },
    /// The circuit breaker changed state.
/// Topics: [cb_state, 0, contract_address]; data: state.
    CircuitBreakerTriggered { contract_address: AccountId, state: String },
    /// An oracle result was recorded.
/// Topics: [oracle_ok, market_id, oracle_address]; data: outcome.
    OracleResultSet { market_id: u64, oracle_address: AccountId, outcome: u32 },
    /// An oracle resolution succeeded.
/// Topics: [orcl_res, market_id, oracle_address]; data: outcome.
    OracleResolved { market_id: u64, oracle_address: AccountId, outcome: u32 },
    /// A resolution was finalized without dispute.
/// Topics: [mkt_final, market_id, resolver]; data: winning_outcome.
    MarketFinalized { market_id: u64, resolver: AccountId, winning_outcome: u32 },
    /// Voting on a dispute concluded.
/// Topics: [disp_res, market_id, resolver]; data: winning_outcome.
    DisputeResolved { market_id: u64, resolver: AccountId, winning_outcome: u32 },
    /// An admin cancelled a market.
/// Topics: [mkt_cncl, market_id, admin]; data: ().
    MarketCancelled { market_id: u64, admin: AccountId },
    /// A community vote cancelled a market.
/// Topics: [mk_cn_vt, market_id, resolver]; data: ().
    MarketCancelledVote { market_id: u64, resolver: AccountId },
    /// A referral reward was credited.
/// Topics: [ref_rwrd, market_id, referrer]; data: amount.
    ReferralReward { market_id: u64, referrer: AccountId, amount: i128 },
    /// Referral rewards were claimed.
/// Topics: [ref_claim, market_id, claimer]; data: amount.
    ReferralClaimed { market_id: u64, claimer: AccountId, amount: i128 },
    /// The circuit breaker tripped by itself.
/// Topics: [cb_auto, 0, contract_address]; data: error_count.
    CircuitBreakerAuto { contract_address: AccountId, error_count: u32 },
    /// Monitoring counters were cleared.
/// Topics: [mon_reset, resetter]; data: (previous_error_count, previous_last_observation).
    MonitoringStateReset { resetter: AccountId, previous_error_count: u32, previous_last_observation: u64 },
    /// A fee was collected.
/// Topics: [fee_colct, 0, contract_address]; data: amount.
    FeeCollected { contract_address: AccountId, amount: i128 },
    /// An admin resolved a market whose vote reached no majority.
/// Topics: [adm_fbk, market_id, admin]; data: winning_outcome.
    AdminFallbackResolution { market_id: u64, admin: AccountId, winning_outcome: u32 },
    /// A creator's reputation score was set.
/// Topics: [rep_set, creator]; data: (old_score, new_score).
    CreatorReputationSet { creator: AccountId, old_score: u32, new_score: u32 },
    /// The market creation deposit was set.
/// Topics: [dep_set]; data: (old_amount, new_amount).
    CreationDepositSet { old_amount: i128, new_amount: i128 },
    /// Protocol fees were withdrawn.
/// Topics: [fees_withdrawn, recipient]; data: amount.
    FeesWithdrawn { recipient: AccountId, amount: i128 },
}

/// Something an operation needs the host to do.
#[derive(Debug, PartialEq, Eq)]
pub enum Action {
    /// The address must have authorized the invocation.
    RequireAuth(AccountId),
    /// Move `amount` of the asset `token` from `from` to `to`.
    Transfer { token: AccountId, from: AccountId, to: AccountId, amount: i128 },
    Publish(Event),
}

/// The name an event is published under (its first topic).
pub open spec fn topic_of(e: Event) -> Seq<char> {
    match e {
        Event::MarketCreated { .. } => "mkt_creat"@,
        Event::BetPlaced { .. } => "bet_place"@,
        Event::DisputeFiled { .. } => "disp_file"@,
        Event::ResolutionFinalized { .. } => "resolv_fx"@,
        Event::RewardsClaimed { .. } => "reward_fx"@,
        Event::VoteCast { .. } => "vote_cast"@,
        Event::CircuitBreakerTriggered { .. } => "cb_state"@,
        Event::OracleResultSet { .. } => "oracle_ok"@,
        Event::OracleResolved { .. } => "orcl_res"@,
        Event::MarketFinalized { .. } => "mkt_final"@,
        Event::DisputeResolved { .. } => "disp_res"@,
        Event::MarketCancelled { .. } => "mkt_cncl"@,
        Event::MarketCancelledVote { .. } => "mk_cn_vt"@,
        Event::ReferralReward { .. } => "ref_rwrd"@,
        Event::ReferralClaimed { .. } => "ref_claim"@,
        Event::CircuitBreakerAuto { .. } => "cb_auto"@,
        Event::MonitoringStateReset { .. } => "mon_reset"@,
        Event::FeeCollected { .. } => "fee_colct"@,
        Event::AdminFallbackResolution { .. } => "adm_fbk"@,
        Event::CreatorReputationSet { .. } => "rep_set"@,
        Event::CreationDepositSet { .. } => "dep_set"@,
        Event::FeesWithdrawn { .. } => "fees_withdrawn"@,
    }
}

impl Event {
    /// The name this event is published under.
    pub fn topic(&self) -> (r: &'static str)
        ensures
            r@ == topic_of(*self),
    {
        match self {
            Event::MarketCreated { .. } => "mkt_creat",
            Event::BetPlaced { .. } => "bet_place",
            Event::DisputeFiled { .. } => "disp_file",
            Event::ResolutionFinalized { .. } => "resolv_fx",
            Event::RewardsClaimed { .. } => "reward_fx",
            Event::VoteCast { .. } => "vote_cast",
            Event::CircuitBreakerTriggered { .. } => "cb_state",
            Event::OracleResultSet { .. } => "oracle_ok",
            Event::OracleResolved { .. } => "orcl_res",
            Event::MarketFinalized { .. } => "mkt_final",
            Event::DisputeResolved { .. } => "disp_res",
            Event::MarketCancelled { .. } => "mkt_cncl",
            Event::MarketCancelledVote { .. } => "mk_cn_vt",
            Event::ReferralReward { .. } => "ref_rwrd",
            Event::ReferralClaimed { .. } => "ref_claim",
            Event::CircuitBreakerAuto { .. } => "cb_auto",
            Event::MonitoringStateReset { .. } => "mon_reset",
            Event::FeeCollected { .. } => "fee_colct",
            Event::AdminFallbackResolution { .. } => "adm_fbk",
            Event::CreatorReputationSet { .. } => "rep_set",
            Event::CreationDepositSet { .. } => "dep_set",
            Event::FeesWithdrawn { .. } => "fees_withdrawn",
        }
    }
}

/// Publishes a `MarketCreated` event.
pub fn emit_market_created(out: &mut Vec<Action>, market_id: u64, creator: AccountId, description: String, num_outcomes: u32, deadline: u64)
    ensures
        final(out)@ == old(out)@.push(Action::Publish(Event::MarketCreated { market_id, creator, description, num_outcomes, deadline })),
{
    out.push(Action::Publish(Event::MarketCreated { market_id, creator, description, num_outcomes, deadline }));
}

/// Publishes a `BetPlaced` event.
pub fn emit_bet_placed(out: &mut Vec<Action>, market_id: u64, bettor: AccountId, outcome: u32, amount: i128)
    ensures
        final(out)@ == old(out)@.push(Action::Publish(Event::BetPlaced { market_id, bettor, outcome, amount })),
{
    out.push(Action::Publish(Event::BetPlaced { market_id, bettor, outcome, amount }));
}

/// Publishes a `DisputeFiled` event.
pub fn emit_dispute_filed(out: &mut Vec<Action>, market_id: u64, disciplinarian: AccountId, new_deadline: u64)
    ensures
        final(out)@ == old(out)@.push(Action::Publish(Event::DisputeFiled { market_id, disciplinarian, new_deadline })),
{
    out.push(Action::Publish(Event::DisputeFiled { market_id, disciplinarian, new_deadline }));
}

/// Publishes a `ResolutionFinalized` event.
pub fn emit_resolution_finalized(out: &mut Vec<Action>, market_id: u64, resolver: AccountId, winning_outcome: u32, total_payout: i128)
    ensures
        final(out)@ == old(out)@.push(Action::Publish(Event::ResolutionFinalized { market_id, resolver, winning_outcome, total_payout })),
{
    out.push(Action::Publish(Event::ResolutionFinalized { market_id, resolver, winning_outcome, total_payout }));
}

/// Publishes a `RewardsClaimed` event.
pub fn emit_rewards_claimed(out: &mut Vec<Action>, market_id: u64, claimer: AccountId, amount: i128, token_address: AccountId, is_refund: bool)
    ensures
        final(out)@ == old(out)@.push(Action::Publish(Event::RewardsClaimed { market_id, claimer, amount, token_address, is_refund })),
{
    out.push(Action::Publish(Event::RewardsClaimed { market_id, claimer, amount, token_address, is_refund }));
}

/// Publishes a `VoteCast` event.
pub fn emit_vote_cast(out: &mut Vec<Action>, market_id: u64, voter: AccountId, outcome: u32, weight: i128)
    ensures
        final(out)@ == old(out)@.push(Action::Publish(Event::VoteCast { market_id, voter, outcome, weight })),
{
    out.push(Action::Publish(Event::VoteCast { market_id, voter, outcome, weight }));
}

/// Publishes a `CircuitBreakerTriggered` event.
pub fn emit_circuit_breaker_triggered(out: &mut Vec<Action>, contract_address: AccountId, state: String)
    ensures
        final(out)@ == old(out)@.push(Action::Publish(Event::CircuitBreakerTriggered { contract_address, state })),
{
    out.push(Action::Publish(Event::CircuitBreakerTriggered { contract_address, state }));
}

/// Publishes a `OracleResultSet` event.
pub fn emit_oracle_result_set(out: &mut Vec<Action>, market_id: u64, oracle_address: AccountId, outcome: u32)
    ensures
        final(out)@ == old(out)@.push(Action::Publish(Event::OracleResultSet { market_id, oracle_address, outcome })),
{
    out.push(Action::Publish(Event::OracleResultSet { market_id, oracle_address, outcome }));
}

/// Publishes a `OracleResolved` event.
pub fn emit_oracle_resolved(out: &mut Vec<Action>, market_id: u64, oracle_address: AccountId, outcome: u32)
    ensures
        final(out)@ == old(out)@.push(Action::Publish(Event::OracleResolved { market_id, oracle_address, outcome })),
{
    out.push(Action::Publish(Event::OracleResolved { market_id, oracle_address, outcome }));
}

/// Publishes a `MarketFinalized` event.
pub fn emit_market_finalized(out: &mut Vec<Action>, market_id: u64, resolver: AccountId, winning_outcome: u32)
    ensures
        final(out)@ == old(out)@.push(Action::Publish(Event::MarketFinalized { market_id, resolver, winning_outcome })),
{
    out.push(Action::Publish(Event::MarketFinalized { market_id, resolver, winning_outcome }));
}

/// Publishes a `DisputeResolved` event.
pub fn emit_dispute_resolved(out: &mut Vec<Action>, market_id: u64, resolver: AccountId, winning_outcome: u32)
    ensures
        final(out)@ == old(out)@.push(Action::Publish(Event::DisputeResolved { market_id, resolver, winning_outcome })),
{
    out.push(Action::Publish(Event::DisputeResolved { market_id, resolver, winning_outcome }));
}

/// Publishes a `MarketCancelled` event.
pub fn emit_market_cancelled(out: &mut Vec<Action>, market_id: u64, admin: AccountId)
    ensures
        final(out)@ == old(out)@.push(Action::Publish(Event::MarketCancelled { market_id, admin })),
{
    out.push(Action::Publish(Event::MarketCancelled { market_id, admin }));
}

/// Publishes a `MarketCancelledVote` event.
pub fn emit_market_cancelled_vote(out: &mut Vec<Action>, market_id: u64, resolver: AccountId)
    ensures
        final(out)@ == old(out)@.push(Action::Publish(Event::MarketCancelledVote { market_id, resolver })),
{
    out.push(Action::Publish(Event::MarketCancelledVote { market_id, resolver }));
}

/// Publishes a `ReferralReward` event.
pub fn emit_referral_reward(out: &mut Vec<Action>, market_id: u64, referrer: AccountId, amount: i128)
    ensures
        final(out)@ == old(out)@.push(Action::Publish(Event::ReferralReward { market_id, referrer, amount })),
{
    out.push(Action::Publish(Event::ReferralReward { market_id, referrer, amount }));
}

/// Publishes a `ReferralClaimed` event.
pub fn emit_referral_claimed(out: &mut Vec<Action>, market_id: u64, claimer: AccountId, amount: i128)
    ensures
        final(out)@ == old(out)@.push(Action::Publish(Event::ReferralClaimed { market_id, claimer, amount })),
{
    out.push(Action::Publish(Event::ReferralClaimed { market_id, claimer, amount }));
}

/// Publishes a `CircuitBreakerAuto` event.
pub fn emit_circuit_breaker_auto(out: &mut Vec<Action>, contract_address: AccountId, error_count: u32)
    ensures
        final(out)@ == old(out)@.push(Action::Publish(Event::CircuitBreakerAuto { contract_address, error_count })),
{
    out.push(Action::Publish(Event::CircuitBreakerAuto { contract_address, error_count }));
}

/// Publishes a `MonitoringStateReset` event.
pub fn emit_monitoring_state_reset(out: &mut Vec<Action>, resetter: AccountId, previous_error_count: u32, previous_last_observation: u64)
    ensures
        final(out)@ == old(out)@.push(Action::Publish(Event::MonitoringStateReset { resetter, previous_error_count, previous_last_observation })),
{
    out.push(Action::Publish(Event::MonitoringStateReset { resetter, previous_error_count, previous_last_observation }));
}

/// Publishes FeeCollected; fees are reported under no market, whatever
/// market is named.
pub fn emit_fee_collected(out: &mut Vec<Action>, _market_id: u64, contract_address: AccountId, amount: i128)
    ensures
        final(out)@ == old(out)@.push(Action::Publish(Event::FeeCollected { contract_address, amount })),
{
    out.push(Action::Publish(Event::FeeCollected { contract_address, amount }));
}

/// Publishes a `AdminFallbackResolution` event.
pub fn emit_admin_fallback_resolution(out: &mut Vec<Action>, market_id: u64, admin: AccountId, winning_outcome: u32)
    ensures
        final(out)@ == old(out)@.push(Action::Publish(Event::AdminFallbackResolution { market_id, admin, winning_outcome })),
{
    out.push(Action::Publish(Event::AdminFallbackResolution { market_id, admin, winning_outcome }));
}

/// Publishes a `CreatorReputationSet` event.
pub fn emit_creator_reputation_set(out: &mut Vec<Action>, creator: AccountId, old_score: u32, new_score: u32)
    ensures
        final(out)@ == old(out)@.push(Action::Publish(Event::CreatorReputationSet { creator, old_score, new_score })),
{
    out.push(Action::Publish(Event::CreatorReputationSet { creator, old_score, new_score }));
}

/// Publishes a `CreationDepositSet` event.
pub fn emit_creation_deposit_set(out: &mut Vec<Action>, old_amount: i128, new_amount: i128)
    ensures
        final(out)@ == old(out)@.push(Action::Publish(Event::CreationDepositSet { old_amount, new_amount })),
{
    out.push(Action::Publish(Event::CreationDepositSet { old_amount, new_amount }));
}

} // verus!
