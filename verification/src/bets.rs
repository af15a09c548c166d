//! Placing bets, paying out winnings and refunds, and the rounding
//! remainder of parimutuel payouts.

use vstd::prelude::*;
use crate::arith::{clamp_i128, quot, quot_rem, rem, saturating_sub};
use crate::events::{Action, Event, emit_bet_placed, emit_rewards_claimed};
use crate::ledger::{
    Ledger, LedgerView, amount_at, count_at, get_fee_admin, require_admin,
    require_not_paused_for_high_risk,
};
use crate::sac::safe_transfer;
use crate::fees::{collect_fee, collect_fee_in_range, ledger_after_fee};
use crate::types::{AccountId, Bet, Context, ErrorCode, MarketStatus, MarketView, stake_on};

verus! {

/// Seconds after resolution before an admin may sweep a market's remainder.
pub const REMAINDER_GRACE_PERIOD: u64 = 2592000;

// ---------------------------------------------------------------------
// place_bet
// ---------------------------------------------------------------------

/// Why a conditional market's parent does not admit bets, if it does not.
pub open spec fn parent_error(pre: LedgerView, m: MarketView) -> Option<ErrorCode> {
    if !pre.markets.dom().contains(m.parent_id) {
        Some(ErrorCode::MarketNotFound)
    } else {
        let p = pre.markets[m.parent_id];
        if p.status != MarketStatus::Resolved {
            Some(ErrorCode::ParentMarketNotResolved)
        } else {
            match p.winning_outcome {
                None => Some(ErrorCode::ParentMarketNotResolved),
                Some(w) => if w != m.parent_outcome_idx {
                    Some(ErrorCode::ParentMarketInvalidOutcome)
                } else {
                    None
                },
            }
        }
    }
}

/// The first check that a bet fails before any asset moves, if any.
pub open spec fn place_bet_gate(
    pre: LedgerView,
    now: u64,
    market_id: u64,
    outcome: u32,
    token_address: AccountId,
) -> Option<ErrorCode> {
    if pre.high_risk_paused {
        Some(ErrorCode::ContractPaused)
    } else if !pre.markets.dom().contains(market_id) {
        Some(ErrorCode::MarketNotFound)
    } else {
        let m = pre.markets[market_id];
        if m.status != MarketStatus::Active {
            Some(ErrorCode::MarketNotActive)
        } else if m.parent_id > 0 && parent_error(pre, m) is Some {
            parent_error(pre, m)
        } else if now >= m.deadline {
            Some(ErrorCode::DeadlinePassed)
        } else if outcome >= m.num_options {
            Some(ErrorCode::InvalidOutcome)
        } else if token_address != m.token_address {
            Some(ErrorCode::InvalidBetAmount)
        } else {
            None
        }
    }
}

/// The bettor's position before the bet: the stored one, or an empty one.
pub open spec fn prior_bet(pre: LedgerView, market_id: u64, bettor: AccountId, outcome: u32) -> Bet {
    if pre.bets.dom().contains((market_id, bettor)) {
        pre.bets[(market_id, bettor)]
    } else {
        Bet { market_id, bettor, outcome, amount: 0 }
    }
}

/// A live position may not move to another outcome.
pub open spec fn changes_outcome(pre: LedgerView, market_id: u64, bettor: AccountId, outcome: u32) -> bool {
    let b = prior_bet(pre, market_id, bettor, outcome);
    b.amount > 0 && b.outcome != outcome
}

/// What a bet returns; `stake_accepted` is whether the asset carried out
/// the stake's transfer, once the market admits the bet.
pub open spec fn place_bet_result(
    pre: LedgerView,
    now: u64,
    bettor: AccountId,
    market_id: u64,
    outcome: u32,
    token_address: AccountId,
    stake_accepted: bool,
) -> Result<(), ErrorCode> {
    match place_bet_gate(pre, now, market_id, outcome, token_address) {
        Some(e) => Err(e),
        None => if !stake_accepted {
            Err(ErrorCode::TransferFailed)
        } else if changes_outcome(pre, market_id, bettor, outcome) {
            Err(ErrorCode::CannotChangeOutcome)
        } else {
            Ok(())
        },
    }
}

/// The ledger after a bet that is accepted: the position, the market's
/// total and the stake on the outcome all grow by `amount`.
pub open spec fn ledger_after_bet(
    pre: LedgerView,
    bettor: AccountId,
    market_id: u64,
    outcome: u32,
    amount: i128,
) -> LedgerView {
    let b = prior_bet(pre, market_id, bettor, outcome);
    let m = pre.markets[market_id];
    LedgerView {
        bets: pre.bets.insert((market_id, bettor), Bet { amount: (b.amount + amount) as i128, ..b }),
        markets: pre.markets.insert(
            market_id,
            MarketView {
                total_staked: (m.total_staked + amount) as i128,
                outcome_stakes: m.outcome_stakes.insert(outcome, (stake_on(m, outcome) + amount) as i128),
                ..m
            },
        ),
        ..pre
    }
}

/// What a bet asks of the host: the bettor's authorization, then (once
/// the market admits the bet) the attempt to transfer the stake to the
/// contract, then (once the bet is accepted) the event.
pub open spec fn place_bet_actions(
    pre: LedgerView,
    ctx: Context,
    bettor: AccountId,
    market_id: u64,
    outcome: u32,
    amount: i128,
    token_address: AccountId,
    stake_accepted: bool,
) -> Seq<Action> {
    let gate = place_bet_gate(pre, ctx.now, market_id, outcome, token_address);
    seq![Action::RequireAuth(bettor)] + (if gate is None {
        seq![Action::Transfer { token: token_address, from: bettor, to: ctx.contract, amount }]
    } else {
        Seq::empty()
    }) + (if place_bet_result(pre, ctx.now, bettor, market_id, outcome, token_address, stake_accepted) is Ok {
        seq![Action::Publish(Event::BetPlaced { market_id, bettor, outcome, amount })]
    } else {
        Seq::empty()
    })
}

/// An accepted bet keeps the position, the total and the stake within `i128`.
pub open spec fn place_bet_in_range(
    pre: LedgerView,
    now: u64,
    bettor: AccountId,
    market_id: u64,
    outcome: u32,
    amount: i128,
    token_address: AccountId,
    stake_accepted: bool,
) -> bool {
    place_bet_result(pre, now, bettor, market_id, outcome, token_address, stake_accepted) is Ok ==> {
        let b = prior_bet(pre, market_id, bettor, outcome);
        let m = pre.markets[market_id];
        &&& i128::MIN <= b.amount + amount <= i128::MAX
        &&& i128::MIN <= m.total_staked + amount <= i128::MAX
        &&& i128::MIN <= stake_on(m, outcome) + amount <= i128::MAX
    }
}

/// Whether `place_bet` can run on these inputs without overflowing.
pub fn place_bet_fits(
    ledger: &Ledger,
    ctx: &Context,
    bettor: AccountId,
    market_id: u64,
    outcome: u32,
    amount: i128,
    token_address: AccountId,
    stake_accepted: bool,
) -> (r: bool)
    ensures
        r == place_bet_in_range(ledger@, ctx.now, bettor, market_id, outcome, amount, token_address, stake_accepted),
{
    if check_bet(ledger, ctx, bettor, market_id, outcome, token_address).is_err() || !stake_accepted {
        return true;
    }
    let prior = current_position(ledger, market_id, bettor, outcome);
    if prior.amount > 0 && prior.outcome != outcome {
        return true;
    }
    let m = match ledger.markets.get(&market_id) {
        Some(m) => m,
        None => return true,
    };
    let stake: i128 = match m.outcome_stakes.get(&outcome) {
        Some(s) => *s,
        None => 0,
    };
    prior.amount.checked_add(amount).is_some() && m.total_staked.checked_add(amount).is_some()
        && stake.checked_add(amount).is_some()
}

/// The bettor's current position, or an empty one.
fn current_position(ledger: &Ledger, market_id: u64, bettor: AccountId, outcome: u32) -> (b: Bet)
    ensures
        b == prior_bet(ledger@, market_id, bettor, outcome),
{
    match ledger.bets.get(&(market_id, bettor)) {
        Some(b) => *b,
        None => Bet { market_id, bettor, outcome, amount: 0 },
    }
}

/// The checks of `place_bet`, without effects.
fn check_bet(
    ledger: &Ledger,
    ctx: &Context,
    bettor: AccountId,
    market_id: u64,
    outcome: u32,
    token_address: AccountId,
) -> (r: Result<(), ErrorCode>)
    ensures
        r == (match place_bet_gate(ledger@, ctx.now, market_id, outcome, token_address) {
            Some(e) => Err(e),
            None => Ok(()),
        }),
{
    require_not_paused_for_high_risk(ledger)?;
    let market = match ledger.markets.get(&market_id) {
        Some(m) => m,
        None => return Err(ErrorCode::MarketNotFound),
    };
    if market.status != MarketStatus::Active {
        return Err(ErrorCode::MarketNotActive);
    }
    if market.parent_id > 0 {
        let parent = match ledger.markets.get(&market.parent_id) {
            Some(p) => p,
            None => return Err(ErrorCode::MarketNotFound),
        };
        if parent.status != MarketStatus::Resolved {
            return Err(ErrorCode::ParentMarketNotResolved);
        }
        let parent_winning_outcome = match parent.winning_outcome {
            Some(w) => w,
            None => return Err(ErrorCode::ParentMarketNotResolved),
        };
        if parent_winning_outcome != market.parent_outcome_idx {
            return Err(ErrorCode::ParentMarketInvalidOutcome);
        }
    }
    if ctx.now >= market.deadline {
        return Err(ErrorCode::DeadlinePassed);
    }
    if outcome >= market.num_options {
        return Err(ErrorCode::InvalidOutcome);
    }
    if token_address != market.token_address {
        return Err(ErrorCode::InvalidBetAmount);
    }
    Ok(())
}

/// Places `amount` on `outcome` of market `market_id` for `bettor`, paid
/// in `token_address`.  The referrer is accepted and not used.
/// `stake_accepted` is whether the asset carries out the transfer of the
/// stake to the contract, which is attempted once the market admits the bet.
pub fn place_bet(
    ledger: &mut Ledger,
    ctx: &Context,
    out: &mut Vec<Action>,
    bettor: AccountId,
    market_id: u64,
    outcome: u32,
    amount: i128,
    token_address: AccountId,
    _referrer: Option<AccountId>,
    stake_accepted: bool,
) -> (r: Result<(), ErrorCode>)
    requires
        place_bet_in_range(old(ledger)@, ctx.now, bettor, market_id, outcome, amount, token_address, stake_accepted),
    ensures
        r == place_bet_result(old(ledger)@, ctx.now, bettor, market_id, outcome, token_address, stake_accepted),
        final(ledger)@ == (if r is Ok {
            ledger_after_bet(old(ledger)@, bettor, market_id, outcome, amount)
        } else {
            old(ledger)@
        }),
        final(out)@ == old(out)@ + place_bet_actions(
            old(ledger)@,
            *ctx,
            bettor,
            market_id,
            outcome,
            amount,
            token_address,
            stake_accepted,
        ),
{
    let ghost pre = ledger@;
    let ghost out0 = out@;
    out.push(Action::RequireAuth(bettor));
    if let Err(e) = check_bet(ledger, ctx, bettor, market_id, outcome, token_address) {
        assert(out@ =~= out0 + place_bet_actions(pre, *ctx, bettor, market_id, outcome, amount, token_address, stake_accepted));
        return Err(e);
    }
    if let Err(e) = safe_transfer(out, token_address, bettor, ctx.contract, amount, stake_accepted) {
        assert(out@ =~= out0 + place_bet_actions(pre, *ctx, bettor, market_id, outcome, amount, token_address, stake_accepted));
        return Err(e);
    }
    let existing = current_position(ledger, market_id, bettor, outcome);
    if existing.amount > 0 && existing.outcome != outcome {
        assert(out@ =~= out0 + place_bet_actions(pre, *ctx, bettor, market_id, outcome, amount, token_address, stake_accepted));
        return Err(ErrorCode::CannotChangeOutcome);
    }
    let new_bet = Bet { amount: existing.amount + amount, ..existing };
    let mut market = match ledger.markets.remove(&market_id) {
        Some(m) => m,
        None => {
            assert(false);
            return Err(ErrorCode::MarketNotFound);
        },
    };
    market.total_staked = market.total_staked + amount;
    let outcome_stake: i128 = match market.outcome_stakes.get(&outcome) {
        Some(s) => *s,
        None => 0,
    };
    market.outcome_stakes.insert(outcome, outcome_stake + amount);
    ledger.markets.insert(market_id, market);
    ledger.bets.insert((market_id, bettor), new_bet);
    emit_bet_placed(out, market_id, bettor, outcome, amount);
    proof {
        let post = ledger_after_bet(pre, bettor, market_id, outcome, amount);
        assert(ledger@.markets =~= post.markets);
        assert(ledger@.bets =~= post.bets);
        assert(out@ =~= out0 + place_bet_actions(pre, *ctx, bettor, market_id, outcome, amount, token_address, stake_accepted));
    }
    Ok(())
}

/// The stored bet of `bettor` on market `market_id`.
pub fn get_bet(ledger: &Ledger, market_id: u64, bettor: AccountId) -> (r: Option<Bet>)
    ensures
        r == (if ledger@.bets.dom().contains((market_id, bettor)) {
            Some(ledger@.bets[(market_id, bettor)])
        } else {
            None::<Bet>
        }),
{
    match ledger.bets.get(&(market_id, bettor)) {
        Some(b) => Some(*b),
        None => None,
    }
}

// ---------------------------------------------------------------------
// claim_winnings
// ---------------------------------------------------------------------

/// The first check a claim fails, if any.
pub open spec fn claim_gate(pre: LedgerView, bettor: AccountId, market_id: u64) -> Option<ErrorCode> {
    if !pre.markets.dom().contains(market_id) {
        Some(ErrorCode::MarketNotFound)
    } else {
        let m = pre.markets[market_id];
        if m.status != MarketStatus::Resolved {
            Some(ErrorCode::MarketNotPendingResolution)
        } else {
            match m.winning_outcome {
                None => Some(ErrorCode::MarketNotPendingResolution),
                Some(w) => if !pre.bets.dom().contains((market_id, bettor)) {
                    Some(ErrorCode::MarketNotFound)
                } else if pre.bets[(market_id, bettor)].outcome != w {
                    Some(ErrorCode::InvalidOutcome)
                } else if stake_on(m, w) == 0 {
                    Some(ErrorCode::InvalidOutcome)
                } else {
                    None
                },
            }
        }
    }
}

/// The stake on the winning outcome of a resolved market.
pub open spec fn winning_stake(pre: LedgerView, market_id: u64) -> int {
    let m = pre.markets[market_id];
    stake_on(m, m.winning_outcome.unwrap())
}

/// The claimed bet's share of the pool before division: its stake times the
/// market's total.
pub open spec fn share_numerator(pre: LedgerView, bettor: AccountId, market_id: u64) -> int {
    pre.bets[(market_id, bettor)].amount * pre.markets[market_id].total_staked
}

/// The parimutuel share, `stake * total / winning_stake`, rounded toward zero.
pub open spec fn base_winnings(pre: LedgerView, bettor: AccountId, market_id: u64) -> int {
    quot(share_numerator(pre, bettor, market_id), winning_stake(pre, market_id))
}

/// What the rounding of this share left over.
pub open spec fn share_remainder(pre: LedgerView, bettor: AccountId, market_id: u64) -> int {
    rem(share_numerator(pre, bettor, market_id), winning_stake(pre, market_id))
}

/// The market's carried remainder with this claim's remainder added.
pub open spec fn carried_remainder(pre: LedgerView, bettor: AccountId, market_id: u64) -> int {
    amount_at(pre.market_remainders, market_id) + share_remainder(pre, bettor, market_id)
}

/// How many claims the market has paid, counting this one.
pub open spec fn claims_with_this(pre: LedgerView, market_id: u64) -> int {
    count_at(pre.claim_counts, market_id) + 1
}

/// The estimate of the number of winners that decides when the carried
/// remainder is paid out: `winning_stake / stake`, less one (saturating),
/// as a `u32` (truncated).
pub open spec fn settle_threshold(pre: LedgerView, bettor: AccountId, market_id: u64) -> u32 {
    clamp_i128(quot(winning_stake(pre, market_id), pre.bets[(market_id, bettor)].amount as int) - 1) as u32
}

/// Whether this claim also takes the carried remainder.
pub open spec fn settles_remainder(pre: LedgerView, bettor: AccountId, market_id: u64) -> bool {
    &&& claims_with_this(pre, market_id) >= settle_threshold(pre, bettor, market_id)
    &&& carried_remainder(pre, bettor, market_id) > 0
}

/// What the claim pays.
pub open spec fn payout(pre: LedgerView, bettor: AccountId, market_id: u64) -> int {
    if settles_remainder(pre, bettor, market_id) {
        base_winnings(pre, bettor, market_id) + carried_remainder(pre, bettor, market_id)
    } else {
        base_winnings(pre, bettor, market_id)
    }
}

pub open spec fn claim_result(pre: LedgerView, bettor: AccountId, market_id: u64) -> Result<i128, ErrorCode> {
    match claim_gate(pre, bettor, market_id) {
        Some(e) => Err(e),
        None => Ok(payout(pre, bettor, market_id) as i128),
    }
}

/// The ledger after a claim that is paid: the bet is gone, the claim is
/// counted, and the carried remainder is kept, or zeroed when paid out.
pub open spec fn ledger_after_claim(pre: LedgerView, bettor: AccountId, market_id: u64) -> LedgerView {
    LedgerView {
        bets: pre.bets.remove((market_id, bettor)),
        market_remainders: pre.market_remainders.insert(
            market_id,
            if settles_remainder(pre, bettor, market_id) {
                0
            } else {
                carried_remainder(pre, bettor, market_id) as i128
            },
        ),
        claim_counts: pre.claim_counts.insert(market_id, claims_with_this(pre, market_id) as u32),
        ..pre
    }
}

pub open spec fn claim_actions(
    pre: LedgerView,
    ctx: Context,
    bettor: AccountId,
    market_id: u64,
    token_address: AccountId,
) -> Seq<Action> {
    seq![Action::RequireAuth(bettor)] + (match claim_result(pre, bettor, market_id) {
        Ok(w) => seq![
            Action::Transfer { token: token_address, from: ctx.contract, to: bettor, amount: w },
            Action::Publish(
                Event::RewardsClaimed { market_id, claimer: bettor, amount: w, token_address, is_refund: false },
            ),
        ],
        Err(_) => Seq::empty(),
    })
}

/// Every step of an accepted claim stays within its type, and no division
/// is by zero.
pub open spec fn claim_in_range(pre: LedgerView, bettor: AccountId, market_id: u64) -> bool {
    claim_gate(pre, bettor, market_id) is None ==> {
        let stake = pre.bets[(market_id, bettor)].amount;
        let ws = winning_stake(pre, market_id);
        let num = share_numerator(pre, bettor, market_id);
        &&& i128::MIN <= num <= i128::MAX
        &&& !(num == i128::MIN && ws == -1)
        &&& i128::MIN <= carried_remainder(pre, bettor, market_id) <= i128::MAX
        &&& claims_with_this(pre, market_id) <= u32::MAX
        &&& stake != 0
        &&& !(ws == i128::MIN && stake == -1)
        &&& i128::MIN <= payout(pre, bettor, market_id) <= i128::MAX
    }
}

/// The claimed bet, when the claim gets past its checks.
fn claimable(ledger: &Ledger, bettor: AccountId, market_id: u64) -> (r: Result<(Bet, i128, i128), ErrorCode>)
    ensures
        match claim_gate(ledger@, bettor, market_id) {
            Some(e) => r == Err::<(Bet, i128, i128), ErrorCode>(e),
            None => r matches Ok((b, ws, total)) && b == ledger@.bets[(market_id, bettor)]
                && ws == winning_stake(ledger@, market_id)
                && total == ledger@.markets[market_id].total_staked,
        },
{
    let market = match ledger.markets.get(&market_id) {
        Some(m) => m,
        None => return Err(ErrorCode::MarketNotFound),
    };
    if market.status != MarketStatus::Resolved {
        return Err(ErrorCode::MarketNotPendingResolution);
    }
    let winning_outcome = match market.winning_outcome {
        Some(w) => w,
        None => return Err(ErrorCode::MarketNotPendingResolution),
    };
    let bet = match ledger.bets.get(&(market_id, bettor)) {
        Some(b) => *b,
        None => return Err(ErrorCode::MarketNotFound),
    };
    if bet.outcome != winning_outcome {
        return Err(ErrorCode::InvalidOutcome);
    }
    let winning_stake: i128 = match market.outcome_stakes.get(&winning_outcome) {
        Some(s) => *s,
        None => 0,
    };
    if winning_stake == 0 {
        return Err(ErrorCode::InvalidOutcome);
    }
    Ok((bet, winning_stake, market.total_staked))
}

/// The remainder carried for `market_id`.
fn remainder_of(ledger: &Ledger, market_id: u64) -> (r: i128)
    ensures
        r == amount_at(ledger@.market_remainders, market_id),
{
    match ledger.market_remainders.get(&market_id) {
        Some(v) => *v,
        None => 0,
    }
}

/// Whether `claim_winnings` can run on these inputs without overflowing.
pub fn claim_winnings_fits(ledger: &Ledger, bettor: AccountId, market_id: u64) -> (r: bool)
    ensures
        r == claim_in_range(ledger@, bettor, market_id),
{
    let (bet, winning_stake, total) = match claimable(ledger, bettor, market_id) {
        Ok(c) => c,
        Err(_) => return true,
    };
    let num = match bet.amount.checked_mul(total) {
        Some(n) => n,
        None => return false,
    };
    if num == i128::MIN && winning_stake == -1 {
        return false;
    }
    if bet.amount == 0 || (winning_stake == i128::MIN && bet.amount == -1) {
        return false;
    }
    let (base, r) = quot_rem(num, winning_stake);
    assert(num == share_numerator(ledger@, bettor, market_id));
    assert(base == base_winnings(ledger@, bettor, market_id));
    assert(r == share_remainder(ledger@, bettor, market_id));
    let carried = match remainder_of(ledger, market_id).checked_add(r) {
        Some(c) => c,
        None => return false,
    };
    let count: u32 = match ledger.claim_counts.get(&market_id) {
        Some(c) => *c,
        None => 0,
    };
    if count == u32::MAX {
        return false;
    }
    let (est, _) = quot_rem(winning_stake, bet.amount);
    assert(est == quot(winning_stake as int, bet.amount as int));
    let threshold = #[verifier::truncate] (saturating_sub(est, 1) as u32);
    assert(threshold == settle_threshold(ledger@, bettor, market_id));
    if count + 1 >= threshold && carried > 0 {
        base.checked_add(carried).is_some()
    } else {
        true
    }
}

/// Pays `bettor` its parimutuel share of market `market_id`, in
/// `token_address`, and removes the bet.  Rounding remainders accumulate
/// per market and go to the claim that appears to be among the last.
pub fn claim_winnings(
    ledger: &mut Ledger,
    ctx: &Context,
    out: &mut Vec<Action>,
    bettor: AccountId,
    market_id: u64,
    token_address: AccountId,
) -> (r: Result<i128, ErrorCode>)
    requires
        claim_in_range(old(ledger)@, bettor, market_id),
    ensures
        r == claim_result(old(ledger)@, bettor, market_id),
        final(ledger)@ == (if r is Ok {
            ledger_after_claim(old(ledger)@, bettor, market_id)
        } else {
            old(ledger)@
        }),
        final(out)@ == old(out)@ + claim_actions(old(ledger)@, *ctx, bettor, market_id, token_address),
{
    let ghost pre = ledger@;
    let ghost out0 = out@;
    out.push(Action::RequireAuth(bettor));
    let (bet, winning_stake, total_staked) = match claimable(ledger, bettor, market_id) {
        Ok(c) => c,
        Err(e) => {
            assert(out@ =~= out0 + claim_actions(pre, *ctx, bettor, market_id, token_address));
            return Err(e);
        },
    };
    let numerator = bet.amount * total_staked;
    assert(numerator == share_numerator(pre, bettor, market_id));
    let (base_winnings, remainder) = quot_rem(numerator, winning_stake);
    assert(base_winnings == self::base_winnings(pre, bettor, market_id));
    assert(remainder == share_remainder(pre, bettor, market_id));
    let new_remainder = remainder_of(ledger, market_id) + remainder;
    let claim_count: u32 = match ledger.claim_counts.get(&market_id) {
        Some(c) => *c,
        None => 0,
    };
    let new_claim_count = claim_count + 1;
    let (estimated_winner_count, _) = quot_rem(winning_stake, bet.amount);
    assert(estimated_winner_count == quot(winning_stake as int, bet.amount as int));
    let threshold = #[verifier::truncate] (saturating_sub(estimated_winner_count, 1) as u32);
    assert(threshold == settle_threshold(pre, bettor, market_id));
    let mut winnings = base_winnings;
    if new_claim_count >= threshold && new_remainder > 0 {
        winnings = winnings + new_remainder;
        ledger.market_remainders.insert(market_id, 0);
    } else {
        ledger.market_remainders.insert(market_id, new_remainder);
    }
    ledger.claim_counts.insert(market_id, new_claim_count);
    out.push(Action::Transfer { token: token_address, from: ctx.contract, to: bettor, amount: winnings });
    let _ = ledger.bets.remove(&(market_id, bettor));
    emit_rewards_claimed(out, market_id, bettor, winnings, token_address, false);
    proof {
        let post = ledger_after_claim(pre, bettor, market_id);
        assert(ledger@.market_remainders =~= post.market_remainders);
        assert(ledger@.claim_counts =~= post.claim_counts);
        assert(ledger@.bets =~= post.bets);
        assert(out@ =~= out0 + claim_actions(pre, *ctx, bettor, market_id, token_address));
    }
    Ok(winnings)
}

// ---------------------------------------------------------------------
// withdraw_refund
// ---------------------------------------------------------------------

pub open spec fn refund_result(pre: LedgerView, bettor: AccountId, market_id: u64) -> Result<i128, ErrorCode> {
    if !pre.markets.dom().contains(market_id) {
        Err(ErrorCode::MarketNotFound)
    } else if pre.markets[market_id].status != MarketStatus::Cancelled {
        Err(ErrorCode::MarketNotActive)
    } else if !pre.bets.dom().contains((market_id, bettor)) {
        Err(ErrorCode::MarketNotFound)
    } else {
        Ok(pre.bets[(market_id, bettor)].amount)
    }
}

pub open spec fn refund_actions(
    pre: LedgerView,
    ctx: Context,
    bettor: AccountId,
    market_id: u64,
    token_address: AccountId,
) -> Seq<Action> {
    seq![Action::RequireAuth(bettor)] + (match refund_result(pre, bettor, market_id) {
        Ok(a) => seq![
            Action::Transfer { token: token_address, from: ctx.contract, to: bettor, amount: a },
            Action::Publish(
                Event::RewardsClaimed { market_id, claimer: bettor, amount: a, token_address, is_refund: true },
            ),
        ],
        Err(_) => Seq::empty(),
    })
}

/// The ledger after a refund: the bet is gone.
pub open spec fn ledger_after_refund(pre: LedgerView, bettor: AccountId, market_id: u64) -> LedgerView {
    LedgerView { bets: pre.bets.remove((market_id, bettor)), ..pre }
}

/// Returns to `bettor` its whole stake in a cancelled market, in
/// `token_address`, and removes the bet.
pub fn withdraw_refund(
    ledger: &mut Ledger,
    ctx: &Context,
    out: &mut Vec<Action>,
    bettor: AccountId,
    market_id: u64,
    token_address: AccountId,
) -> (r: Result<i128, ErrorCode>)
    ensures
        r == refund_result(old(ledger)@, bettor, market_id),
        final(ledger)@ == (if r is Ok {
            ledger_after_refund(old(ledger)@, bettor, market_id)
        } else {
            old(ledger)@
        }),
        final(out)@ == old(out)@ + refund_actions(old(ledger)@, *ctx, bettor, market_id, token_address),
{
    let ghost pre = ledger@;
    let ghost out0 = out@;
    out.push(Action::RequireAuth(bettor));
    let status = match ledger.markets.get(&market_id) {
        Some(m) => m.status,
        None => {
            assert(out@ =~= out0 + refund_actions(pre, *ctx, bettor, market_id, token_address));
            return Err(ErrorCode::MarketNotFound);
        },
    };
    if status != MarketStatus::Cancelled {
        assert(out@ =~= out0 + refund_actions(pre, *ctx, bettor, market_id, token_address));
        return Err(ErrorCode::MarketNotActive);
    }
    let bet = match ledger.bets.get(&(market_id, bettor)) {
        Some(b) => *b,
        None => {
            assert(out@ =~= out0 + refund_actions(pre, *ctx, bettor, market_id, token_address));
            return Err(ErrorCode::MarketNotFound);
        },
    };
    let refund_amount = bet.amount;
    out.push(Action::Transfer { token: token_address, from: ctx.contract, to: bettor, amount: refund_amount });
    let _ = ledger.bets.remove(&(market_id, bettor));
    emit_rewards_claimed(out, market_id, bettor, refund_amount, token_address, true);
    assert(out@ =~= out0 + refund_actions(pre, *ctx, bettor, market_id, token_address));
    Ok(refund_amount)
}

/// The rounding remainder carried for market `market_id`.
pub fn get_market_remainder(ledger: &Ledger, market_id: u64) -> (r: i128)
    ensures
        r == amount_at(ledger@.market_remainders, market_id),
{
    remainder_of(ledger, market_id)
}

// ---------------------------------------------------------------------
// collect_market_remainder
// ---------------------------------------------------------------------

/// The first check a sweep of the remainder fails before the fee is
/// booked, if any.
pub open spec fn sweep_gate(pre: LedgerView, now: u64, market_id: u64) -> Option<ErrorCode> {
    if pre.admin is None {
        Some(ErrorCode::NotAuthorized)
    } else if !pre.markets.dom().contains(market_id) {
        Some(ErrorCode::MarketNotFound)
    } else {
        let m = pre.markets[market_id];
        if m.status != MarketStatus::Resolved {
            Some(ErrorCode::MarketNotActive)
        } else {
            match m.resolved_at {
                None => Some(ErrorCode::MarketNotActive),
                Some(t) => if now < t + REMAINDER_GRACE_PERIOD {
                    Some(ErrorCode::MarketStillActive)
                } else if amount_at(pre.market_remainders, market_id) == 0 {
                    Some(ErrorCode::InsufficientBalance)
                } else {
                    None
                },
            }
        }
    }
}

pub open spec fn sweep_result(pre: LedgerView, now: u64, market_id: u64) -> Result<i128, ErrorCode> {
    match sweep_gate(pre, now, market_id) {
        Some(e) => Err(e),
        None => match pre.fee_admin {
            None => Err(ErrorCode::NotAuthorized),
            Some(_) => Ok(amount_at(pre.market_remainders, market_id) as i128),
        },
    }
}

/// The ledger after a sweep: the remainder is booked as a fee and the
/// market's remainder is zeroed.
pub open spec fn ledger_after_sweep(pre: LedgerView, market_id: u64, token_address: AccountId) -> LedgerView {
    let after_fee = ledger_after_fee(pre, token_address, amount_at(pre.market_remainders, market_id) as i128);
    LedgerView { market_remainders: after_fee.market_remainders.insert(market_id, 0), ..after_fee }
}

pub open spec fn sweep_actions(pre: LedgerView, ctx: Context, market_id: u64, token_address: AccountId) -> Seq<Action> {
    let remainder = amount_at(pre.market_remainders, market_id) as i128;
    match pre.admin {
        None => Seq::empty(),
        Some(a) => seq![Action::RequireAuth(a)] + (if sweep_gate(pre, ctx.now, market_id) is None {
            seq![Action::Publish(Event::FeeCollected { contract_address: ctx.contract, amount: remainder })]
                + (match pre.fee_admin {
                None => Seq::empty(),
                Some(f) => seq![
                    Action::Transfer { token: token_address, from: ctx.contract, to: f, amount: remainder },
                ],
            })
        } else {
            Seq::empty()
        }),
    }
}

/// The grace period's end and the booked fee stay within their types.
pub open spec fn sweep_in_range(pre: LedgerView, now: u64, market_id: u64, token_address: AccountId) -> bool {
    &&& (pre.admin is Some && pre.markets.dom().contains(market_id)
        && pre.markets[market_id].status == MarketStatus::Resolved
        && pre.markets[market_id].resolved_at is Some)
        ==> pre.markets[market_id].resolved_at.unwrap() + REMAINDER_GRACE_PERIOD <= u64::MAX
    &&& (sweep_gate(pre, now, market_id) is None && pre.fee_admin is Some) ==> collect_fee_in_range(
        pre,
        token_address,
        amount_at(pre.market_remainders, market_id) as i128,
    )
}

/// Whether `collect_market_remainder` can run on these inputs without
/// overflowing.
pub fn collect_market_remainder_fits(ledger: &Ledger, ctx: &Context, market_id: u64, token_address: AccountId) -> (r: bool)
    ensures
        r == sweep_in_range(ledger@, ctx.now, market_id, token_address),
{
    let m = match ledger.markets.get(&market_id) {
        Some(m) => m,
        None => return true,
    };
    if ledger.admin.is_none() || m.status != MarketStatus::Resolved {
        return true;
    }
    let resolved_at = match m.resolved_at {
        Some(t) => t,
        None => return true,
    };
    let grace_end = match resolved_at.checked_add(REMAINDER_GRACE_PERIOD) {
        Some(t) => t,
        None => return false,
    };
    let remainder = remainder_of(ledger, market_id);
    if ctx.now < grace_end || remainder == 0 || ledger.fee_admin.is_none() {
        return true;
    }
    crate::fees::collect_fee_fits(ledger, token_address, remainder)
}

/// Moves a resolved market's carried remainder, once the grace period has
/// passed, to the fee revenue and pays it to the fee admin.  Only the admin
/// may.
pub fn collect_market_remainder(
    ledger: &mut Ledger,
    ctx: &Context,
    out: &mut Vec<Action>,
    market_id: u64,
    token_address: AccountId,
) -> (r: Result<i128, ErrorCode>)
    requires
        sweep_in_range(old(ledger)@, ctx.now, market_id, token_address),
    ensures
        r == sweep_result(old(ledger)@, ctx.now, market_id),
        final(ledger)@ == (if r is Ok {
            ledger_after_sweep(old(ledger)@, market_id, token_address)
        } else {
            old(ledger)@
        }),
        final(out)@ == old(out)@ + sweep_actions(old(ledger)@, *ctx, market_id, token_address),
{
    let ghost pre = ledger@;
    let ghost out0 = out@;
    if let Err(e) = require_admin(ledger, out) {
        assert(out@ =~= out0 + sweep_actions(pre, *ctx, market_id, token_address));
        return Err(e);
    }
    let resolved_at = match ledger.markets.get(&market_id) {
        Some(m) => {
            if m.status != MarketStatus::Resolved {
                assert(out@ =~= out0 + sweep_actions(pre, *ctx, market_id, token_address));
                return Err(ErrorCode::MarketNotActive);
            }
            match m.resolved_at {
                Some(t) => t,
                None => {
                    assert(out@ =~= out0 + sweep_actions(pre, *ctx, market_id, token_address));
                    return Err(ErrorCode::MarketNotActive);
                },
            }
        },
        None => {
            assert(out@ =~= out0 + sweep_actions(pre, *ctx, market_id, token_address));
            return Err(ErrorCode::MarketNotFound);
        },
    };
    if ctx.now < resolved_at + REMAINDER_GRACE_PERIOD {
        assert(out@ =~= out0 + sweep_actions(pre, *ctx, market_id, token_address));
        return Err(ErrorCode::MarketStillActive);
    }
    let remainder = remainder_of(ledger, market_id);
    if remainder == 0 {
        assert(out@ =~= out0 + sweep_actions(pre, *ctx, market_id, token_address));
        return Err(ErrorCode::InsufficientBalance);
    }
    let fee_admin = get_fee_admin(ledger);
    match fee_admin {
        Err(e) => {
            crate::events::emit_fee_collected(out, 0, ctx.contract, remainder);
            assert(out@ =~= out0 + sweep_actions(pre, *ctx, market_id, token_address));
            Err(e)
        },
        Ok(f) => {
            collect_fee(ledger, ctx, out, token_address, remainder);
            out.push(Action::Transfer { token: token_address, from: ctx.contract, to: f, amount: remainder });
            ledger.market_remainders.insert(market_id, 0);
            proof {
                let post = ledger_after_sweep(pre, market_id, token_address);
                assert(ledger@.market_remainders =~= post.market_remainders);
                assert(out@ =~= out0 + sweep_actions(pre, *ctx, market_id, token_address));
            }
            Ok(remainder)
        },
    }
}

} // verus!
