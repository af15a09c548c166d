//! Protocol fees: the base fee and its tiers, fee revenue, and referral
//! rewards.

use vstd::prelude::*;
use crate::arith::{clamp_i128, quot, saturating_mul};
use crate::events::{Action, Event, emit_fee_collected, emit_referral_claimed, emit_referral_reward};
use crate::ledger::{Ledger, LedgerView, amount_at, require_admin};
use crate::types::{AccountId, Context, ErrorCode, MarketTier};

verus! {

/// Basis points in a whole.
pub const BPS_DENOMINATOR: i128 = 10000;

/// Basis points in a whole tier multiplier.
pub const TIER_DENOMINATOR_BPS: i128 = 10000;

/// The share of the base fee a tier pays, in basis points.
pub open spec fn tier_multiplier(tier: MarketTier) -> int {
    match tier {
        MarketTier::Basic => 10000,
        MarketTier::Pro => 7500,
        MarketTier::Institutional => 5000,
    }
}

/// The fee on `amount` at `base_fee_bps`: `amount * base_fee_bps` in
/// basis points, rounded toward zero, each product saturating.
pub open spec fn flat_fee(amount: int, base_fee_bps: int) -> int {
    quot(clamp_i128(amount * base_fee_bps), 10000)
}

/// The tiered fee: the product of amount, base fee and tier multiplier is
/// divided once, at the end, so no precision is lost to an early division.
pub open spec fn tiered_fee(amount: int, base_fee_bps: int, tier: MarketTier) -> int {
    quot(clamp_i128(clamp_i128(amount * base_fee_bps) * tier_multiplier(tier)), 100000000)
}

/// The base fee in force: the stored one, or 0.
pub open spec fn base_fee_of(l: LedgerView) -> int {
    match l.base_fee {
        Some(f) => f as int,
        None => 0,
    }
}

pub fn get_base_fee(ledger: &Ledger) -> (r: i128)
    ensures
        r == base_fee_of(ledger@),
{
    match ledger.base_fee {
        Some(f) => f,
        None => 0,
    }
}

/// The ledger with the base fee set to `amount`.
pub open spec fn ledger_with_base_fee(pre: LedgerView, amount: i128) -> LedgerView {
    LedgerView { base_fee: Some(amount), ..pre }
}

/// Sets the base fee; only the admin may.
pub fn set_base_fee(ledger: &mut Ledger, out: &mut Vec<Action>, amount: i128) -> (r: Result<(), ErrorCode>)
    ensures
        match old(ledger)@.admin {
            None => {
                &&& r == Err::<(), ErrorCode>(ErrorCode::NotAuthorized)
                &&& final(ledger)@ == old(ledger)@
                &&& final(out)@ == old(out)@
            },
            Some(a) => {
                &&& r == Ok::<(), ErrorCode>(())
                &&& final(ledger)@ == ledger_with_base_fee(old(ledger)@, amount)
                &&& final(out)@ == old(out)@.push(Action::RequireAuth(a))
            },
        },
{
    require_admin(ledger, out)?;
    ledger.base_fee = Some(amount);
    Ok(())
}

/// The untiered fee on `amount` at the base fee in force.
pub fn calculate_fee(ledger: &Ledger, amount: i128) -> (r: i128)
    ensures
        r == flat_fee(amount as int, base_fee_of(ledger@)),
{
    let base_fee = get_base_fee(ledger);
    saturating_mul(amount, base_fee) / BPS_DENOMINATOR
}

pub fn tier_multiplier_bps(tier: &MarketTier) -> (r: i128)
    ensures
        r == tier_multiplier(*tier),
{
    match tier {
        MarketTier::Basic => TIER_DENOMINATOR_BPS,
        MarketTier::Pro => 7500,
        MarketTier::Institutional => 5000,
    }
}

pub fn calculate_tiered_fee_with_base(amount: i128, base_fee_bps: i128, tier: &MarketTier) -> (r: i128)
    ensures
        r == tiered_fee(amount as int, base_fee_bps as int, *tier),
{
    let numerator = saturating_mul(saturating_mul(amount, base_fee_bps), tier_multiplier_bps(tier));
    numerator / (BPS_DENOMINATOR * TIER_DENOMINATOR_BPS)
}

/// The tiered fee on `amount` at the base fee in force.
pub fn calculate_tiered_fee(ledger: &Ledger, amount: i128, tier: &MarketTier) -> (r: i128)
    ensures
        r == tiered_fee(amount as int, base_fee_of(ledger@), *tier),
{
    let base_fee = get_base_fee(ledger);
    calculate_tiered_fee_with_base(amount, base_fee, tier)
}

/// The total of all fees collected: the stored one, or 0.
pub open spec fn total_fees_of(l: LedgerView) -> int {
    match l.total_fees_collected {
        Some(t) => t as int,
        None => 0,
    }
}

/// Adding `amount` keeps the asset's revenue and the overall total within `i128`.
pub open spec fn collect_fee_in_range(pre: LedgerView, token: AccountId, amount: i128) -> bool {
    &&& i128::MIN <= amount_at(pre.fee_revenue, token) + amount <= i128::MAX
    &&& i128::MIN <= total_fees_of(pre) + amount <= i128::MAX
}

/// The ledger after a fee of `amount` in `token` is collected.
pub open spec fn ledger_after_fee(pre: LedgerView, token: AccountId, amount: i128) -> LedgerView {
    LedgerView {
        fee_revenue: pre.fee_revenue.insert(token, (amount_at(pre.fee_revenue, token) + amount) as i128),
        total_fees_collected: Some((total_fees_of(pre) + amount) as i128),
        ..pre
    }
}

/// Whether `collect_fee` can run on these inputs without overflowing.
pub fn collect_fee_fits(ledger: &Ledger, token: AccountId, amount: i128) -> (r: bool)
    ensures
        r == collect_fee_in_range(ledger@, token, amount),
{
    let revenue = get_revenue(ledger, token);
    let total: i128 = match ledger.total_fees_collected {
        Some(t) => t,
        None => 0,
    };
    revenue.checked_add(amount).is_some() && total.checked_add(amount).is_some()
}

/// Adds `amount` to the revenue in `token` and to the overall total.
pub fn collect_fee(ledger: &mut Ledger, ctx: &Context, out: &mut Vec<Action>, token: AccountId, amount: i128)
    requires
        collect_fee_in_range(old(ledger)@, token, amount),
    ensures
        final(ledger)@ == ledger_after_fee(old(ledger)@, token, amount),
        final(out)@ == old(out)@.push(
            Action::Publish(Event::FeeCollected { contract_address: ctx.contract, amount }),
        ),
{
    let total = get_revenue(ledger, token) + amount;
    ledger.fee_revenue.insert(token, total);
    let overall: i128 = match ledger.total_fees_collected {
        Some(t) => t,
        None => 0,
    };
    ledger.total_fees_collected = Some(overall + amount);
    emit_fee_collected(out, 0, ctx.contract, amount);
}

/// The fees collected in `token` and not yet withdrawn.
pub fn get_revenue(ledger: &Ledger, token: AccountId) -> (r: i128)
    ensures
        r == amount_at(ledger@.fee_revenue, token),
{
    match ledger.fee_revenue.get(&token) {
        Some(v) => *v,
        None => 0,
    }
}

pub open spec fn withdraw_fees_result(pre: LedgerView, token: AccountId) -> Result<i128, ErrorCode> {
    if pre.admin is None {
        Err(ErrorCode::NotAuthorized)
    } else if amount_at(pre.fee_revenue, token) == 0 {
        Err(ErrorCode::InsufficientBalance)
    } else {
        Ok(amount_at(pre.fee_revenue, token) as i128)
    }
}

/// The ledger after the fees in `token` are paid out.
pub open spec fn ledger_after_fee_withdrawal(pre: LedgerView, token: AccountId) -> LedgerView {
    LedgerView { fee_revenue: pre.fee_revenue.insert(token, 0), ..pre }
}

/// What a withdrawal asks of the host: the admin's authorization, then, when
/// it pays, the transfer to `recipient` and the event.
pub open spec fn withdraw_fees_actions(pre: LedgerView, ctx: Context, token: AccountId, recipient: AccountId) -> Seq<Action> {
    match pre.admin {
        None => Seq::empty(),
        Some(a) => seq![Action::RequireAuth(a)] + (match withdraw_fees_result(pre, token) {
            Ok(balance) => seq![
                Action::Transfer { token, from: ctx.contract, to: recipient, amount: balance },
                Action::Publish(Event::FeesWithdrawn { recipient, amount: balance }),
            ],
            Err(_) => Seq::empty(),
        }),
    }
}

/// Pays out to `recipient` all fees collected in `token`; only the admin
/// may, and only when there is something to pay.
pub fn withdraw_protocol_fees(
    ledger: &mut Ledger,
    ctx: &Context,
    out: &mut Vec<Action>,
    token: &AccountId,
    recipient: &AccountId,
) -> (r: Result<i128, ErrorCode>)
    ensures
        r == withdraw_fees_result(old(ledger)@, *token),
        final(ledger)@ == (if r is Ok {
            ledger_after_fee_withdrawal(old(ledger)@, *token)
        } else {
            old(ledger)@
        }),
        final(out)@ == old(out)@ + withdraw_fees_actions(old(ledger)@, *ctx, *token, *recipient),
{
    let ghost out0 = out@;
    require_admin(ledger, out)?;
    let balance = get_revenue(ledger, *token);
    if balance == 0 {
        assert(out@ =~= out0 + withdraw_fees_actions(old(ledger)@, *ctx, *token, *recipient));
        return Err(ErrorCode::InsufficientBalance);
    }
    ledger.fee_revenue.insert(*token, 0);
    out.push(Action::Transfer { token: *token, from: ctx.contract, to: *recipient, amount: balance });
    out.push(Action::Publish(Event::FeesWithdrawn { recipient: *recipient, amount: balance }));
    assert(out@ =~= out0 + withdraw_fees_actions(old(ledger)@, *ctx, *token, *recipient));
    Ok(balance)
}

/// A referral reward is a tenth of the fee, rounded toward zero.
pub open spec fn referral_reward(fee_amount: int) -> int {
    quot(fee_amount * 10, 100)
}

/// The reward and the referrer's new balance stay within `i128`.
pub open spec fn referral_in_range(pre: LedgerView, referrer: AccountId, token: AccountId, fee_amount: i128) -> bool {
    &&& i128::MIN <= fee_amount * 10 <= i128::MAX
    &&& i128::MIN <= amount_at(pre.referrer_balances, (referrer, token)) + referral_reward(fee_amount as int)
        <= i128::MAX
}

/// The ledger after `referrer` is credited the reward on `fee_amount`.
pub open spec fn ledger_after_referral(pre: LedgerView, referrer: AccountId, token: AccountId, fee_amount: i128) -> LedgerView {
    LedgerView {
        referrer_balances: pre.referrer_balances.insert(
            (referrer, token),
            (amount_at(pre.referrer_balances, (referrer, token)) + referral_reward(fee_amount as int)) as i128,
        ),
        ..pre
    }
}

/// Whether `add_referral_reward` can run on these inputs without overflowing.
pub fn add_referral_reward_fits(ledger: &Ledger, referrer: &AccountId, token: &AccountId, fee_amount: i128) -> (r: bool)
    ensures
        r == referral_in_range(ledger@, *referrer, *token, fee_amount),
{
    match fee_amount.checked_mul(10) {
        None => false,
        Some(scaled) => {
            let reward = scaled / 100;
            referrer_balance(ledger, *referrer, *token).checked_add(reward).is_some()
        },
    }
}

/// The referral balance of `referrer` in `token`.
fn referrer_balance(ledger: &Ledger, referrer: AccountId, token: AccountId) -> (r: i128)
    ensures
        r == amount_at(ledger@.referrer_balances, (referrer, token)),
{
    match ledger.referrer_balances.get(&(referrer, token)) {
        Some(v) => *v,
        None => 0,
    }
}

/// Credits `referrer` with a tenth of `fee_amount`, in `token`.
pub fn add_referral_reward(
    ledger: &mut Ledger,
    out: &mut Vec<Action>,
    referrer: &AccountId,
    token: &AccountId,
    fee_amount: i128,
)
    requires
        referral_in_range(old(ledger)@, *referrer, *token, fee_amount),
    ensures
        final(ledger)@ == ledger_after_referral(old(ledger)@, *referrer, *token, fee_amount),
        final(out)@ == old(out)@.push(
            Action::Publish(
                (Event::ReferralReward {
                    market_id: 0,
                    referrer: *referrer,
                    amount: referral_reward(fee_amount as int) as i128,
                }),
            ),
        ),
{
    let reward = (fee_amount * 10) / 100;
    let balance = referrer_balance(ledger, *referrer, *token) + reward;
    ledger.referrer_balances.insert((*referrer, *token), balance);
    emit_referral_reward(out, 0, *referrer, reward);
}

pub open spec fn claim_referral_result(pre: LedgerView, address: AccountId, token: AccountId) -> Result<i128, ErrorCode> {
    let balance = amount_at(pre.referrer_balances, (address, token));
    if balance == 0 {
        Err(ErrorCode::InsufficientBalance)
    } else {
        Ok(balance as i128)
    }
}

/// The ledger after `address` is paid its referral balance in `token`.
pub open spec fn ledger_after_referral_claim(pre: LedgerView, address: AccountId, token: AccountId) -> LedgerView {
    LedgerView { referrer_balances: pre.referrer_balances.insert((address, token), 0), ..pre }
}

/// What a referral claim asks of the host: the claimer's authorization,
/// then, when it pays, the contract's authorization, the transfer and the
/// event.
pub open spec fn claim_referral_actions(pre: LedgerView, ctx: Context, address: AccountId, token: AccountId) -> Seq<Action> {
    seq![Action::RequireAuth(address)] + (match claim_referral_result(pre, address, token) {
        Ok(balance) => seq![
            Action::RequireAuth(ctx.contract),
            Action::Transfer { token, from: ctx.contract, to: address, amount: balance },
            Action::Publish(Event::ReferralClaimed { market_id: 0, claimer: address, amount: balance }),
        ],
        Err(_) => Seq::empty(),
    })
}

/// Pays `address` its whole referral balance in `token`.
pub fn claim_referral_rewards(
    ledger: &mut Ledger,
    ctx: &Context,
    out: &mut Vec<Action>,
    address: &AccountId,
    token: &AccountId,
) -> (r: Result<i128, ErrorCode>)
    ensures
        r == claim_referral_result(old(ledger)@, *address, *token),
        final(ledger)@ == (if r is Ok {
            ledger_after_referral_claim(old(ledger)@, *address, *token)
        } else {
            old(ledger)@
        }),
        final(out)@ == old(out)@ + claim_referral_actions(old(ledger)@, *ctx, *address, *token),
{
    let ghost out0 = out@;
    out.push(Action::RequireAuth(*address));
    let balance = referrer_balance(ledger, *address, *token);
    if balance == 0 {
        assert(out@ =~= out0 + claim_referral_actions(old(ledger)@, *ctx, *address, *token));
        return Err(ErrorCode::InsufficientBalance);
    }
    ledger.referrer_balances.insert((*address, *token), 0);
    out.push(Action::RequireAuth(ctx.contract));
    out.push(Action::Transfer { token: *token, from: ctx.contract, to: *address, amount: balance });
    emit_referral_claimed(out, 0, *address, balance);
    assert(out@ =~= out0 + claim_referral_actions(old(ledger)@, *ctx, *address, *token));
    Ok(balance)
}

} // verus!
