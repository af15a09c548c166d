//! Properties of the library as a whole: what holds across operations, or
//! of every input.

use vstd::prelude::*;
use crate::arith::{abs, clamp_i128, lemma_quot_rem, quot, rem};
use crate::bets::{
    sweep_actions, changes_outcome, place_bet_actions,
    base_winnings, claim_actions, claim_in_range, claim_result, ledger_after_bet, ledger_after_claim,
    ledger_after_refund, ledger_after_sweep, place_bet_in_range, place_bet_result, prior_bet,
    refund_actions, refund_result, share_numerator, share_remainder, sweep_in_range, sweep_result, winning_stake,
};
use crate::fees::{
    base_fee_of, claim_referral_actions, claim_referral_result, withdraw_fees_actions, collect_fee_in_range, flat_fee, ledger_after_fee,
    ledger_after_fee_withdrawal, ledger_after_referral, ledger_after_referral_claim,
    ledger_with_base_fee, referral_in_range, referral_reward, tiered_fee, withdraw_fees_result,
};
use crate::ledger::{LedgerView, amount_at, count_at};
use crate::events::{Action, Event};
use crate::types::{AccountId, Context, ErrorCode, MarketStatus, MarketTier, MarketView, stake_on};

verus! {

// ---------------------------------------------------------------------
// Fees
// ---------------------------------------------------------------------

/// On non-negative amounts and fees, a better tier never pays more:
/// Institutional pays at most what Pro pays, and Pro at most what Basic pays.
pub proof fn law_tier_discounts_are_ordered(amount: i128, base_fee_bps: i128)
    requires
        amount >= 0,
        base_fee_bps >= 0,
    ensures
        tiered_fee(amount as int, base_fee_bps as int, MarketTier::Institutional) <= tiered_fee(
            amount as int,
            base_fee_bps as int,
            MarketTier::Pro,
        ),
        tiered_fee(amount as int, base_fee_bps as int, MarketTier::Pro) <= tiered_fee(
            amount as int,
            base_fee_bps as int,
            MarketTier::Basic,
        ),
        0 <= tiered_fee(amount as int, base_fee_bps as int, MarketTier::Institutional),
{
    let p = clamp_i128(amount * base_fee_bps);
    assert(amount * base_fee_bps >= 0) by (nonlinear_arith)
        requires
            amount >= 0,
            base_fee_bps >= 0,
    ;
    assert(0 <= p * 5000 <= p * 7500 <= p * 10000) by (nonlinear_arith)
        requires
            p >= 0,
    ;
    let i = clamp_i128(p * 5000);
    let q = clamp_i128(p * 7500);
    let b = clamp_i128(p * 10000);
    vstd::arithmetic::div_mod::lemma_div_is_ordered(i, q, 100000000);
    vstd::arithmetic::div_mod::lemma_div_is_ordered(q, b, 100000000);
    vstd::arithmetic::div_mod::lemma_div_is_ordered(0, i, 100000000);
}

/// Where nothing saturates, the Basic tier pays exactly the untiered fee:
/// dividing once by 10^8 after scaling by 10^4 is dividing by 10^4.
pub proof fn law_basic_tier_is_the_flat_fee(amount: i128, base_fee_bps: i128)
    requires
        i128::MIN <= amount * base_fee_bps * 10000 <= i128::MAX,
    ensures
        tiered_fee(amount as int, base_fee_bps as int, MarketTier::Basic) == flat_fee(
            amount as int,
            base_fee_bps as int,
        ),
{
    let p = amount * base_fee_bps;
    assert(i128::MIN <= p <= i128::MAX) by (nonlinear_arith)
        requires
            i128::MIN <= p * 10000 <= i128::MAX,
    ;
    assert(clamp_i128(p) == p);
    assert(clamp_i128(p * 10000) == p * 10000);
    let x = abs(p);
    assert(abs(p * 10000) == x * 10000);
    vstd::arithmetic::div_mod::lemma_div_multiples_vanish(x, 10000);
    assert(10000 * x == x * 10000);
    vstd::arithmetic::div_mod::lemma_div_denominator(x * 10000, 10000, 10000);
    assert((x * 10000) / 100000000 == x / 10000);
}

/// Setting the base fee is what reading it then gives back.
pub proof fn law_base_fee_read_after_write(pre: LedgerView, amount: i128)
    ensures
        base_fee_of(ledger_with_base_fee(pre, amount)) == amount,
{
}

/// A collected fee can be withdrawn: with an admin set, a withdrawal right
/// after the collection pays what was there plus the fee (when that is not
/// nothing).
pub proof fn law_collected_fee_is_withdrawable(pre: LedgerView, token: AccountId, amount: i128)
    requires
        collect_fee_in_range(pre, token, amount),
        pre.admin is Some,
        amount_at(pre.fee_revenue, token) + amount != 0,
    ensures
        withdraw_fees_result(ledger_after_fee(pre, token, amount), token) == Ok::<i128, ErrorCode>(
            (amount_at(pre.fee_revenue, token) + amount) as i128,
        ),
{
}

/// Fees are paid out once: right after a withdrawal, another one finds
/// nothing to pay.
pub proof fn law_fees_withdrawn_once(pre: LedgerView, token: AccountId)
    requires
        withdraw_fees_result(pre, token) is Ok,
    ensures
        withdraw_fees_result(ledger_after_fee_withdrawal(pre, token), token) == Err::<i128, ErrorCode>(
            ErrorCode::InsufficientBalance,
        ),
{
}

/// A credited referral reward is what a claim then pays, on top of what was
/// there (when the sum is not nothing).
pub proof fn law_referral_credit_then_claim(
    pre: LedgerView,
    referrer: AccountId,
    token: AccountId,
    fee_amount: i128,
)
    requires
        referral_in_range(pre, referrer, token, fee_amount),
        amount_at(pre.referrer_balances, (referrer, token)) + referral_reward(fee_amount as int) != 0,
    ensures
        claim_referral_result(ledger_after_referral(pre, referrer, token, fee_amount), referrer, token)
            == Ok::<i128, ErrorCode>(
            (amount_at(pre.referrer_balances, (referrer, token)) + referral_reward(fee_amount as int)) as i128,
        ),
{
}

/// Referral rewards are paid once: right after a claim, another one finds
/// nothing to pay.
pub proof fn law_referral_claimed_once(pre: LedgerView, address: AccountId, token: AccountId)
    requires
        claim_referral_result(pre, address, token) is Ok,
    ensures
        claim_referral_result(ledger_after_referral_claim(pre, address, token), address, token) == Err::<
            i128,
            ErrorCode,
        >(ErrorCode::InsufficientBalance),
{
}

// ---------------------------------------------------------------------
// Bets
// ---------------------------------------------------------------------

/// A bet is accepted only on an active market before its deadline, on one
/// of its outcomes, in its asset, while high-risk operations are allowed,
/// and, for a conditional market, once its parent has resolved to the
/// outcome it is conditioned on; and only once its stake has been
/// transferred.
pub proof fn law_bets_only_on_open_markets(
    pre: LedgerView,
    now: u64,
    bettor: AccountId,
    market_id: u64,
    outcome: u32,
    token_address: AccountId,
    stake_accepted: bool,
)
    requires
        place_bet_result(pre, now, bettor, market_id, outcome, token_address, stake_accepted) is Ok,
    ensures
        stake_accepted,
        !pre.high_risk_paused,
        pre.markets.dom().contains(market_id),
        pre.markets[market_id].status == MarketStatus::Active,
        now < pre.markets[market_id].deadline,
        outcome < pre.markets[market_id].num_options,
        token_address == pre.markets[market_id].token_address,
        pre.markets[market_id].parent_id > 0 ==> {
            let m = pre.markets[market_id];
            &&& pre.markets.dom().contains(m.parent_id)
            &&& pre.markets[m.parent_id].status == MarketStatus::Resolved
            &&& pre.markets[m.parent_id].winning_outcome == Some(m.parent_outcome_idx)
        },
{
}

/// An accepted bet adds its amount to the position, to the market's total
/// and to the stake on its outcome, and touches no other outcome or market;
/// a live position keeps its outcome.
pub proof fn law_bet_accumulates(
    pre: LedgerView,
    now: u64,
    bettor: AccountId,
    market_id: u64,
    outcome: u32,
    amount: i128,
    token_address: AccountId,
)
    requires
        place_bet_result(pre, now, bettor, market_id, outcome, token_address, true) is Ok,
        place_bet_in_range(pre, now, bettor, market_id, outcome, amount, token_address, true),
    ensures
        ({
            let post = ledger_after_bet(pre, bettor, market_id, outcome, amount);
            let prior = prior_bet(pre, market_id, bettor, outcome);
            let m0 = pre.markets[market_id];
            let m1 = post.markets[market_id];
            &&& post.bets.dom().contains((market_id, bettor))
            &&& post.bets[(market_id, bettor)].amount == prior.amount + amount
            &&& prior.amount > 0 ==> post.bets[(market_id, bettor)].outcome == outcome
            &&& m1.total_staked == m0.total_staked + amount
            &&& stake_on(m1, outcome) == stake_on(m0, outcome) + amount
            &&& forall|o: u32| o != outcome ==> stake_on(m1, o) == stake_on(m0, o)
            &&& forall|id: u64| id != market_id && #[trigger] pre.markets.dom().contains(id)
                ==> post.markets.dom().contains(id) && post.markets[id] == pre.markets[id]
        }),
{
}

/// The sum of the stakes on outcomes `0..n`.
pub open spec fn stakes_below(m: MarketView, n: nat) -> int
    decreases n,
{
    if n == 0 {
        0
    } else {
        stakes_below(m, (n - 1) as nat) + stake_on(m, (n - 1) as u32)
    }
}

/// A market's total is the sum of the stakes on its outcomes.
pub open spec fn pool_balanced(m: MarketView) -> bool {
    m.total_staked == stakes_below(m, m.num_options as nat)
}

proof fn lemma_stakes_below_after_bet(m0: MarketView, m1: MarketView, outcome: u32, amount: int, n: nat)
    requires
        n <= u32::MAX + 1,
        stake_on(m1, outcome) == stake_on(m0, outcome) + amount,
        forall|o: u32| o != outcome ==> stake_on(m1, o) == stake_on(m0, o),
    ensures
        stakes_below(m1, n) == stakes_below(m0, n) + (if outcome < n {
            amount
        } else {
            0
        }),
    decreases n,
{
    if n > 0 {
        lemma_stakes_below_after_bet(m0, m1, outcome, amount, (n - 1) as nat);
        let o = (n - 1) as u32;
        if o != outcome {
            assert(stake_on(m1, o) == stake_on(m0, o));
        }
    }
}

/// A bet, accepted or refused, keeps a balanced market balanced: the total
/// still equals the sum of the stakes on its outcomes.
pub proof fn law_bet_keeps_pool_balanced(
    pre: LedgerView,
    now: u64,
    bettor: AccountId,
    market_id: u64,
    outcome: u32,
    amount: i128,
    token_address: AccountId,
    stake_accepted: bool,
)
    requires
        place_bet_in_range(pre, now, bettor, market_id, outcome, amount, token_address, stake_accepted),
        pool_balanced(pre.markets[market_id]),
    ensures
        pool_balanced(
            (if place_bet_result(pre, now, bettor, market_id, outcome, token_address, stake_accepted) is Ok {
                ledger_after_bet(pre, bettor, market_id, outcome, amount)
            } else {
                pre
            }).markets[market_id],
        ),
{
    if place_bet_result(pre, now, bettor, market_id, outcome, token_address, stake_accepted) is Ok {
        let post = ledger_after_bet(pre, bettor, market_id, outcome, amount);
        law_bet_accumulates(pre, now, bettor, market_id, outcome, amount, token_address);
        let m0 = pre.markets[market_id];
        let m1 = post.markets[market_id];
        lemma_stakes_below_after_bet(m0, m1, outcome, amount as int, m0.num_options as nat);
    }
}

// ---------------------------------------------------------------------
// Payouts
// ---------------------------------------------------------------------

/// A claim is paid only on a resolved market, to a bet on its winning
/// outcome, when that outcome carries stake.
pub proof fn law_claims_only_for_winners(pre: LedgerView, bettor: AccountId, market_id: u64)
    requires
        claim_result(pre, bettor, market_id) is Ok,
    ensures
        pre.markets.dom().contains(market_id),
        pre.markets[market_id].status == MarketStatus::Resolved,
        pre.bets.dom().contains((market_id, bettor)),
        pre.markets[market_id].winning_outcome == Some(pre.bets[(market_id, bettor)].outcome),
        winning_stake(pre, market_id) != 0,
        pre.markets[market_id].outcome_stakes.dom().contains(pre.bets[(market_id, bettor)].outcome),
        pre.markets[market_id].outcome_stakes[pre.bets[(market_id, bettor)].outcome] != 0,
{
}

/// The rounding of payouts loses and creates nothing: the parimutuel share
/// splits exactly into a quotient and a remainder, and what the claim pays
/// plus what stays carried equals that quotient plus what was carried
/// before plus that remainder.
pub proof fn law_claim_keeps_remainder_books(pre: LedgerView, bettor: AccountId, market_id: u64)
    requires
        claim_result(pre, bettor, market_id) is Ok,
        claim_in_range(pre, bettor, market_id),
    ensures
        winning_stake(pre, market_id) * base_winnings(pre, bettor, market_id) + share_remainder(
            pre,
            bettor,
            market_id,
        ) == share_numerator(pre, bettor, market_id),
        abs(share_remainder(pre, bettor, market_id)) < abs(winning_stake(pre, market_id)),
        ({
            let post = ledger_after_claim(pre, bettor, market_id);
            claim_result(pre, bettor, market_id) matches Ok(w) && w + amount_at(
                post.market_remainders,
                market_id,
            ) == base_winnings(pre, bettor, market_id) + amount_at(pre.market_remainders, market_id)
                + share_remainder(pre, bettor, market_id)
        }),
{
    lemma_quot_rem(share_numerator(pre, bettor, market_id), winning_stake(pre, market_id));
}

/// A winner's base share never exceeds the pool: with a non-negative pool
/// and a stake between 0 and the winning stake, the share is between 0 and
/// the pool.
pub proof fn law_share_within_pool(pre: LedgerView, bettor: AccountId, market_id: u64)
    requires
        claim_result(pre, bettor, market_id) is Ok,
        0 <= pre.bets[(market_id, bettor)].amount <= winning_stake(pre, market_id),
        pre.markets[market_id].total_staked >= 0,
    ensures
        0 <= base_winnings(pre, bettor, market_id) <= pre.markets[market_id].total_staked,
{
    let s = pre.bets[(market_id, bettor)].amount as int;
    let t = pre.markets[market_id].total_staked as int;
    let w = winning_stake(pre, market_id);
    assert(0 <= s * t <= w * t) by (nonlinear_arith)
        requires
            0 <= s <= w,
            0 <= t,
    ;
    vstd::arithmetic::div_mod::lemma_div_is_ordered(s * t, w * t, w);
    vstd::arithmetic::div_mod::lemma_div_is_ordered(0, s * t, w);
    vstd::arithmetic::div_mod::lemma_div_multiples_vanish(t, w);
}

/// The stakes of the given bettors' bets on a market.
pub open spec fn stakes_of(pre: LedgerView, bettors: Seq<AccountId>, market_id: u64) -> int
    decreases bettors.len(),
{
    if bettors.len() == 0 {
        0
    } else {
        stakes_of(pre, bettors.drop_last(), market_id) + pre.bets[(market_id, bettors.last())].amount
    }
}

/// The base shares the given bettors' claims on a market pay.
pub open spec fn base_shares_of(pre: LedgerView, bettors: Seq<AccountId>, market_id: u64) -> int
    decreases bettors.len(),
{
    if bettors.len() == 0 {
        0
    } else {
        base_shares_of(pre, bettors.drop_last(), market_id) + base_winnings(pre, bettors.last(), market_id)
    }
}

proof fn lemma_base_shares_scaled(pre: LedgerView, bettors: Seq<AccountId>, market_id: u64)
    requires
        winning_stake(pre, market_id) > 0,
        pre.markets[market_id].total_staked >= 0,
        forall|i: int| 0 <= i < bettors.len() ==> pre.bets[(market_id, #[trigger] bettors[i])].amount >= 0,
    ensures
        winning_stake(pre, market_id) * base_shares_of(pre, bettors, market_id) <= pre.markets[market_id].total_staked
            * stakes_of(pre, bettors, market_id),
    decreases bettors.len(),
{
    if bettors.len() > 0 {
        let rest = bettors.drop_last();
        let b = bettors.last();
        assert(bettors[bettors.len() - 1] == b);
        assert forall|i: int| 0 <= i < rest.len() implies pre.bets[(market_id, #[trigger] rest[i])].amount >= 0 by {
            assert(rest[i] == bettors[i]);
        }
        lemma_base_shares_scaled(pre, rest, market_id);
        let w = winning_stake(pre, market_id);
        let t = pre.markets[market_id].total_staked as int;
        let a = pre.bets[(market_id, b)].amount as int;
        assert(a * t >= 0) by (nonlinear_arith)
            requires
                a >= 0,
                t >= 0,
        ;
        lemma_quot_rem(a * t, w);
        let q = base_winnings(pre, b, market_id);
        let sb = base_shares_of(pre, rest, market_id);
        let sa = stakes_of(pre, rest, market_id);
        assert(w * (sb + q) <= t * (sa + a)) by (nonlinear_arith)
            requires
                w * sb <= t * sa,
                w * q <= a * t,
        ;
    }
}

/// All winners share the pool: where the given bettors' stakes add up to
/// the winning stake and the pool is not negative, their base shares
/// together never exceed the pool.  (What a claim pays on top, from the
/// carried rounding remainder, is not bounded so.)
pub proof fn law_base_shares_within_pool(pre: LedgerView, bettors: Seq<AccountId>, market_id: u64)
    requires
        forall|i: int| 0 <= i < bettors.len() ==> claim_result(pre, #[trigger] bettors[i], market_id) is Ok,
        forall|i: int| 0 <= i < bettors.len() ==> pre.bets[(market_id, #[trigger] bettors[i])].amount >= 0,
        bettors.len() > 0,
        stakes_of(pre, bettors, market_id) == winning_stake(pre, market_id),
        pre.markets[market_id].total_staked >= 0,
    ensures
        base_shares_of(pre, bettors, market_id) <= pre.markets[market_id].total_staked,
{
    let b0 = bettors[0];
    assert(claim_result(pre, b0, market_id) is Ok);
    let w = winning_stake(pre, market_id);
    lemma_stakes_nonnegative(pre, bettors, market_id);
    assert(w > 0);
    lemma_base_shares_scaled(pre, bettors, market_id);
    let t = pre.markets[market_id].total_staked as int;
    let sb = base_shares_of(pre, bettors, market_id);
    assert(sb <= t) by (nonlinear_arith)
        requires
            w * sb <= t * w,
            w > 0,
    ;
}

proof fn lemma_stakes_nonnegative(pre: LedgerView, bettors: Seq<AccountId>, market_id: u64)
    requires
        forall|i: int| 0 <= i < bettors.len() ==> pre.bets[(market_id, #[trigger] bettors[i])].amount >= 0,
    ensures
        stakes_of(pre, bettors, market_id) >= 0,
    decreases bettors.len(),
{
    if bettors.len() > 0 {
        let rest = bettors.drop_last();
        assert(pre.bets[(market_id, bettors[bettors.len() - 1])].amount >= 0);
        assert forall|i: int| 0 <= i < rest.len() implies pre.bets[(market_id, #[trigger] rest[i])].amount >= 0 by {
            assert(rest[i] == bettors[i]);
        }
        lemma_stakes_nonnegative(pre, rest, market_id);
    }
}

/// Winnings are paid once: right after a paid claim, the same claim fails
/// because the bet is gone, and moves nothing.
pub proof fn law_claim_pays_once(
    pre: LedgerView,
    ctx: Context,
    bettor: AccountId,
    market_id: u64,
    token_address: AccountId,
)
    requires
        claim_result(pre, bettor, market_id) is Ok,
    ensures
        claim_result(ledger_after_claim(pre, bettor, market_id), bettor, market_id) == Err::<
            i128,
            ErrorCode,
        >(ErrorCode::MarketNotFound),
        claim_actions(ledger_after_claim(pre, bettor, market_id), ctx, bettor, market_id, token_address)
            == seq![Action::RequireAuth(bettor)],
{
    assert(claim_actions(ledger_after_claim(pre, bettor, market_id), ctx, bettor, market_id, token_address)
        =~= seq![Action::RequireAuth(bettor)]);
}

/// The ledger with market `market_id` cancelled.
pub open spec fn with_market_cancelled(l: LedgerView, market_id: u64) -> LedgerView {
    LedgerView {
        markets: l.markets.insert(market_id, MarketView { status: MarketStatus::Cancelled, ..l.markets[market_id] }),
        ..l
    }
}

/// Two accepted bets on a market that is then cancelled are refunded
/// together: the refund pays both amounts, and a second refund fails and
/// moves nothing.
pub proof fn law_refund_returns_all_stakes(
    pre: LedgerView,
    ctx: Context,
    bettor: AccountId,
    market_id: u64,
    outcome: u32,
    first: i128,
    second: i128,
    token_address: AccountId,
)
    requires
        !pre.bets.dom().contains((market_id, bettor)),
        place_bet_result(pre, ctx.now, bettor, market_id, outcome, token_address, true) is Ok,
        place_bet_in_range(pre, ctx.now, bettor, market_id, outcome, first, token_address, true),
        place_bet_result(
            ledger_after_bet(pre, bettor, market_id, outcome, first),
            ctx.now,
            bettor,
            market_id,
            outcome,
            token_address,
            true,
        ) is Ok,
        place_bet_in_range(
            ledger_after_bet(pre, bettor, market_id, outcome, first),
            ctx.now,
            bettor,
            market_id,
            outcome,
            second,
            token_address,
            true,
        ),
    ensures
        ({
            let placed = ledger_after_bet(
                ledger_after_bet(pre, bettor, market_id, outcome, first),
                bettor,
                market_id,
                outcome,
                second,
            );
            let cancelled = with_market_cancelled(placed, market_id);
            let refunded = ledger_after_refund(cancelled, bettor, market_id);
            &&& refund_result(cancelled, bettor, market_id) == Ok::<i128, ErrorCode>((first + second) as i128)
            &&& refund_result(refunded, bettor, market_id) == Err::<i128, ErrorCode>(ErrorCode::MarketNotFound)
            &&& refund_actions(refunded, ctx, bettor, market_id, token_address) == seq![Action::RequireAuth(bettor)]
        }),
{
    let placed = ledger_after_bet(
        ledger_after_bet(pre, bettor, market_id, outcome, first),
        bettor,
        market_id,
        outcome,
        second,
    );
    let refunded = ledger_after_refund(with_market_cancelled(placed, market_id), bettor, market_id);
    assert(refund_actions(refunded, ctx, bettor, market_id, token_address) =~= seq![Action::RequireAuth(bettor)]);
}

/// A refund returns exactly the stake, and only once.
pub proof fn law_refund_returns_stake_once(pre: LedgerView, bettor: AccountId, market_id: u64)
    requires
        refund_result(pre, bettor, market_id) is Ok,
    ensures
        refund_result(pre, bettor, market_id) == Ok::<i128, ErrorCode>(pre.bets[(market_id, bettor)].amount),
        refund_result(ledger_after_refund(pre, bettor, market_id), bettor, market_id) == Err::<
            i128,
            ErrorCode,
        >(ErrorCode::MarketNotFound),
{
}

/// Sweeping a market's remainder moves it whole into the fee revenue,
/// leaves nothing carried, and cannot be repeated.
pub proof fn law_remainder_swept_once(pre: LedgerView, now: u64, market_id: u64, token_address: AccountId)
    requires
        sweep_result(pre, now, market_id) is Ok,
        sweep_in_range(pre, now, market_id, token_address),
    ensures
        ({
            let post = ledger_after_sweep(pre, market_id, token_address);
            &&& amount_at(post.market_remainders, market_id) == 0
            &&& amount_at(post.fee_revenue, token_address) == amount_at(pre.fee_revenue, token_address)
                + amount_at(pre.market_remainders, market_id)
            &&& sweep_result(post, now, market_id) == Err::<i128, ErrorCode>(ErrorCode::InsufficientBalance)
        }),
{
}

// ---------------------------------------------------------------------
// What each operation answers, on its inputs
// ---------------------------------------------------------------------

/// Refunds are paid only on a cancelled market: a refund that succeeds
/// found the market cancelled and pays back exactly the stored stake, from
/// the contract to the bettor; on a market in any other status it answers
/// `MarketNotActive` and moves nothing.
pub proof fn law_refunds_only_on_cancelled_markets(
    pre: LedgerView,
    ctx: Context,
    bettor: AccountId,
    market_id: u64,
    token_address: AccountId,
)
    ensures
        refund_result(pre, bettor, market_id) is Ok ==> {
            &&& pre.markets.dom().contains(market_id)
            &&& pre.markets[market_id].status == MarketStatus::Cancelled
            &&& pre.bets.dom().contains((market_id, bettor))
            &&& refund_result(pre, bettor, market_id) == Ok::<i128, ErrorCode>(pre.bets[(market_id, bettor)].amount)
            &&& refund_actions(pre, ctx, bettor, market_id, token_address) == seq![
                Action::RequireAuth(bettor),
                Action::Transfer {
                    token: token_address,
                    from: ctx.contract,
                    to: bettor,
                    amount: pre.bets[(market_id, bettor)].amount,
                },
                Action::Publish(
                    Event::RewardsClaimed {
                        market_id,
                        claimer: bettor,
                        amount: pre.bets[(market_id, bettor)].amount,
                        token_address,
                        is_refund: true,
                    },
                ),
            ]
        },
        (pre.markets.dom().contains(market_id) && pre.markets[market_id].status != MarketStatus::Cancelled)
            ==> {
            &&& refund_result(pre, bettor, market_id) == Err::<i128, ErrorCode>(ErrorCode::MarketNotActive)
            &&& refund_actions(pre, ctx, bettor, market_id, token_address) == seq![Action::RequireAuth(bettor)]
        },
{
    assert(refund_actions(pre, ctx, bettor, market_id, token_address) =~= (if refund_result(pre, bettor, market_id) is Ok {
        seq![
            Action::RequireAuth(bettor),
            Action::Transfer {
                token: token_address,
                from: ctx.contract,
                to: bettor,
                amount: pre.bets[(market_id, bettor)].amount,
            },
            Action::Publish(
                Event::RewardsClaimed {
                    market_id,
                    claimer: bettor,
                    amount: pre.bets[(market_id, bettor)].amount,
                    token_address,
                    is_refund: true,
                },
            ),
        ]
    } else {
        seq![Action::RequireAuth(bettor)]
    }));
}

/// A paid claim is the bet's share of the pool divided by the stake on the
/// winning outcome: with `s` the bet's stake, `t` the market's total and
/// `w` the stake stored for the winning outcome, it pays `s * t / w`
/// (rounded toward zero), or that plus this share's remainder and the
/// remainder carried before.
pub proof fn law_payout_divides_by_winning_stake(pre: LedgerView, bettor: AccountId, market_id: u64)
    requires
        claim_result(pre, bettor, market_id) is Ok,
        claim_in_range(pre, bettor, market_id),
    ensures
        ({
            let m = pre.markets[market_id];
            let o = m.winning_outcome.unwrap();
            let s = pre.bets[(market_id, bettor)].amount as int;
            let t = m.total_staked as int;
            &&& m.outcome_stakes.dom().contains(o)
            &&& m.outcome_stakes[o] != 0
            &&& claim_result(pre, bettor, market_id) matches Ok(p) && (p == quot(s * t, m.outcome_stakes[o] as int)
                || p == quot(s * t, m.outcome_stakes[o] as int) + rem(s * t, m.outcome_stakes[o] as int)
                + amount_at(pre.market_remainders, market_id))
        }),
{
}

/// `(w * t) / w == t` and `(w * t) % w == 0` for truncating division.
proof fn lemma_quot_of_multiple(w: int, t: int)
    requires
        w != 0,
    ensures
        quot(w * t, w) == t,
        rem(w * t, w) == 0,
{
    lemma_quot_rem(w * t, w);
    let q = quot(w * t, w);
    let r = rem(w * t, w);
    assert(w * (t - q) == r) by (nonlinear_arith)
        requires
            w * q + r == w * t,
    ;
    if t != q {
        assert(abs(w * (t - q)) >= abs(w)) by (nonlinear_arith)
            requires
                t != q,
        ;
    }
}

/// The only winner of a market takes the whole pool: where the claimed
/// bet's stake is all the stake on the winning outcome and nothing is
/// carried yet, the claim pays exactly the market's total.
pub proof fn law_sole_winner_takes_pool(pre: LedgerView, bettor: AccountId, market_id: u64)
    requires
        claim_result(pre, bettor, market_id) is Ok,
        claim_in_range(pre, bettor, market_id),
        ({
            let m = pre.markets[market_id];
            m.outcome_stakes.dom().contains(m.winning_outcome.unwrap())
                && pre.bets[(market_id, bettor)].amount == m.outcome_stakes[m.winning_outcome.unwrap()]
        }),
        amount_at(pre.market_remainders, market_id) == 0,
    ensures
        claim_result(pre, bettor, market_id) == Ok::<i128, ErrorCode>(pre.markets[market_id].total_staked),
{
    let m = pre.markets[market_id];
    let w = m.outcome_stakes[m.winning_outcome.unwrap()] as int;
    let t = m.total_staked as int;
    law_payout_divides_by_winning_stake(pre, bettor, market_id);
    lemma_quot_of_multiple(w, t);
    assert(w * t == pre.bets[(market_id, bettor)].amount * t);
}

/// Collecting a fee adds it to the overall total, whatever the asset:
/// after collections of `first` in `token` and `second` in `other`, the
/// total is what it was (0 if none) plus both, and each asset's revenue
/// grows by its own fee.
pub proof fn law_fee_collections_add_up(
    pre: LedgerView,
    token: AccountId,
    first: i128,
    other: AccountId,
    second: i128,
)
    requires
        collect_fee_in_range(pre, token, first),
        collect_fee_in_range(ledger_after_fee(pre, token, first), other, second),
        token != other,
    ensures
        ({
            let before: int = match pre.total_fees_collected {
                Some(x) => x as int,
                None => 0,
            };
            let once = ledger_after_fee(pre, token, first);
            let twice = ledger_after_fee(once, other, second);
            &&& once.total_fees_collected == Some((before + first) as i128)
            &&& twice.total_fees_collected == Some((before + first + second) as i128)
            &&& amount_at(twice.fee_revenue, token) == amount_at(pre.fee_revenue, token) + first
            &&& amount_at(twice.fee_revenue, other) == amount_at(pre.fee_revenue, other) + second
        }),
{
}

/// A bet that passes every other check is accepted on every outcome the
/// market lists, and refused with `InvalidOutcome` on any other: on an
/// active market, while high-risk operations are allowed, before the
/// deadline, in the market's asset, with its parent (if any) resolved to
/// the required outcome and no live position on another outcome, the answer
/// is `Ok` exactly when `outcome < num_options` (and the stake's transfer
/// is carried out).
pub proof fn law_open_market_takes_every_listed_outcome(
    pre: LedgerView,
    now: u64,
    bettor: AccountId,
    market_id: u64,
    outcome: u32,
    token_address: AccountId,
)
    requires
        !pre.high_risk_paused,
        pre.markets.dom().contains(market_id),
        pre.markets[market_id].status == MarketStatus::Active,
        pre.markets[market_id].parent_id > 0 ==> {
            let m = pre.markets[market_id];
            &&& pre.markets.dom().contains(m.parent_id)
            &&& pre.markets[m.parent_id].status == MarketStatus::Resolved
            &&& pre.markets[m.parent_id].winning_outcome == Some(m.parent_outcome_idx)
        },
        now < pre.markets[market_id].deadline,
        token_address == pre.markets[market_id].token_address,
        !(pre.bets.dom().contains((market_id, bettor)) && pre.bets[(market_id, bettor)].amount > 0
            && pre.bets[(market_id, bettor)].outcome != outcome),
    ensures
        outcome < pre.markets[market_id].num_options ==> place_bet_result(
            pre,
            now,
            bettor,
            market_id,
            outcome,
            token_address,
            true,
        ) == Ok::<(), ErrorCode>(()),
        outcome < pre.markets[market_id].num_options ==> place_bet_result(
            pre,
            now,
            bettor,
            market_id,
            outcome,
            token_address,
            false,
        ) == Err::<(), ErrorCode>(ErrorCode::TransferFailed),
        outcome >= pre.markets[market_id].num_options ==> place_bet_result(
            pre,
            now,
            bettor,
            market_id,
            outcome,
            token_address,
            true,
        ) == Err::<(), ErrorCode>(ErrorCode::InvalidOutcome),
{
    assert(!changes_outcome(pre, market_id, bettor, outcome));
}

/// A successful sweep pays the fee admin exactly the swept remainder: it
/// returns the market's carried remainder, books that as a fee, and its one
/// transfer moves that amount, in `token_address`, from the contract to the
/// fee admin, whatever fee revenue the asset already holds.
pub proof fn law_sweep_pays_fee_admin_the_remainder(
    pre: LedgerView,
    ctx: Context,
    market_id: u64,
    token_address: AccountId,
)
    requires
        sweep_result(pre, ctx.now, market_id) is Ok,
    ensures
        pre.admin is Some,
        pre.fee_admin is Some,
        pre.market_remainders.dom().contains(market_id),
        sweep_result(pre, ctx.now, market_id) == Ok::<i128, ErrorCode>(pre.market_remainders[market_id]),
        sweep_actions(pre, ctx, market_id, token_address) == seq![
            Action::RequireAuth(pre.admin.unwrap()),
            Action::Publish(
                Event::FeeCollected { contract_address: ctx.contract, amount: pre.market_remainders[market_id] },
            ),
            Action::Transfer {
                token: token_address,
                from: ctx.contract,
                to: pre.fee_admin.unwrap(),
                amount: pre.market_remainders[market_id],
            },
        ],
{
    assert(sweep_actions(pre, ctx, market_id, token_address) =~= seq![
        Action::RequireAuth(pre.admin.unwrap()),
        Action::Publish(
            Event::FeeCollected { contract_address: ctx.contract, amount: pre.market_remainders[market_id] },
        ),
        Action::Transfer {
            token: token_address,
            from: ctx.contract,
            to: pre.fee_admin.unwrap(),
            amount: pre.market_remainders[market_id],
        },
    ]);
}


/// A paid claim moves its payout from the contract to the bettor, in the
/// asset named, and announces it; the bet is then gone, the market's claim
/// count grows by one, and no other bet or market changes.
pub proof fn law_claim_pays_the_bettor(
    pre: LedgerView,
    ctx: Context,
    bettor: AccountId,
    market_id: u64,
    token_address: AccountId,
)
    requires
        claim_result(pre, bettor, market_id) is Ok,
        claim_in_range(pre, bettor, market_id),
    ensures
        claim_result(pre, bettor, market_id) matches Ok(p) && claim_actions(pre, ctx, bettor, market_id, token_address)
            == seq![
            Action::RequireAuth(bettor),
            Action::Transfer { token: token_address, from: ctx.contract, to: bettor, amount: p },
            Action::Publish(
                Event::RewardsClaimed { market_id, claimer: bettor, amount: p, token_address, is_refund: false },
            ),
        ],
        ({
            let post = ledger_after_claim(pre, bettor, market_id);
            &&& !post.bets.dom().contains((market_id, bettor))
            &&& forall|k: (u64, AccountId)| k != (market_id, bettor) ==> post.bets.dom().contains(k)
                == pre.bets.dom().contains(k) && (#[trigger] pre.bets.dom().contains(k) ==> post.bets[k]
                == pre.bets[k])
            &&& count_at(post.claim_counts, market_id) == count_at(pre.claim_counts, market_id) + 1
            &&& post.markets == pre.markets
            &&& post.fee_revenue == pre.fee_revenue
        }),
{
    let p = claim_result(pre, bettor, market_id)->Ok_0;
    assert(claim_actions(pre, ctx, bettor, market_id, token_address) =~= seq![
        Action::RequireAuth(bettor),
        Action::Transfer { token: token_address, from: ctx.contract, to: bettor, amount: p },
        Action::Publish(
            Event::RewardsClaimed { market_id, claimer: bettor, amount: p, token_address, is_refund: false },
        ),
    ]);
}

/// An accepted bet moves its stake from the bettor to the contract, in the
/// market's asset, and announces it; the bettor's position then holds what
/// it held before (nothing, if there was none) plus the stake, on the
/// position's outcome (the bet's, for a new position).
pub proof fn law_bet_moves_the_stake(
    pre: LedgerView,
    ctx: Context,
    bettor: AccountId,
    market_id: u64,
    outcome: u32,
    amount: i128,
    token_address: AccountId,
)
    requires
        place_bet_result(pre, ctx.now, bettor, market_id, outcome, token_address, true) is Ok,
        place_bet_in_range(pre, ctx.now, bettor, market_id, outcome, amount, token_address, true),
    ensures
        place_bet_actions(pre, ctx, bettor, market_id, outcome, amount, token_address, true) == seq![
            Action::RequireAuth(bettor),
            Action::Transfer { token: pre.markets[market_id].token_address, from: bettor, to: ctx.contract, amount },
            Action::Publish(Event::BetPlaced { market_id, bettor, outcome, amount }),
        ],
        ({
            let post = ledger_after_bet(pre, bettor, market_id, outcome, amount);
            let key = (market_id, bettor);
            &&& post.bets.dom().contains(key)
            &&& post.bets[key].amount == (if pre.bets.dom().contains(key) {
                pre.bets[key].amount as int
            } else {
                0
            }) + amount
            &&& post.bets[key].outcome == (if pre.bets.dom().contains(key) {
                pre.bets[key].outcome
            } else {
                outcome
            })
            &&& post.markets[market_id].total_staked == pre.markets[market_id].total_staked + amount
        }),
{
    assert(place_bet_actions(pre, ctx, bettor, market_id, outcome, amount, token_address, true) =~= seq![
        Action::RequireAuth(bettor),
        Action::Transfer { token: pre.markets[market_id].token_address, from: bettor, to: ctx.contract, amount },
        Action::Publish(Event::BetPlaced { market_id, bettor, outcome, amount }),
    ]);
}

/// A fee withdrawal pays, from the contract to the recipient, exactly the
/// revenue stored for the asset, after the admin's authorization; the
/// revenue is then 0 and no other asset's changes.  Without an admin it
/// answers `NotAuthorized` and asks nothing; with nothing stored,
/// `InsufficientBalance`.
pub proof fn law_fee_withdrawal_pays_the_revenue(
    pre: LedgerView,
    ctx: Context,
    token: AccountId,
    recipient: AccountId,
)
    ensures
        pre.admin is None ==> withdraw_fees_result(pre, token) == Err::<i128, ErrorCode>(ErrorCode::NotAuthorized)
            && withdraw_fees_actions(pre, ctx, token, recipient) == Seq::<Action>::empty(),
        pre.admin is Some && !(pre.fee_revenue.dom().contains(token) && pre.fee_revenue[token] != 0)
            ==> withdraw_fees_result(pre, token) == Err::<i128, ErrorCode>(ErrorCode::InsufficientBalance),
        withdraw_fees_result(pre, token) is Ok ==> {
            &&& pre.fee_revenue.dom().contains(token)
            &&& withdraw_fees_result(pre, token) == Ok::<i128, ErrorCode>(pre.fee_revenue[token])
            &&& withdraw_fees_actions(pre, ctx, token, recipient) == seq![
                Action::RequireAuth(pre.admin.unwrap()),
                Action::Transfer { token, from: ctx.contract, to: recipient, amount: pre.fee_revenue[token] },
                Action::Publish(Event::FeesWithdrawn { recipient, amount: pre.fee_revenue[token] }),
            ]
            &&& ledger_after_fee_withdrawal(pre, token).fee_revenue[token] == 0
            &&& forall|o: AccountId| o != token ==> #[trigger] amount_at(
                ledger_after_fee_withdrawal(pre, token).fee_revenue,
                o,
            ) == amount_at(pre.fee_revenue, o)
        },
{
    if withdraw_fees_result(pre, token) is Ok {
        assert(withdraw_fees_actions(pre, ctx, token, recipient) =~= seq![
            Action::RequireAuth(pre.admin.unwrap()),
            Action::Transfer { token, from: ctx.contract, to: recipient, amount: pre.fee_revenue[token] },
            Action::Publish(Event::FeesWithdrawn { recipient, amount: pre.fee_revenue[token] }),
        ]);
    }
}

/// A referral claim pays, from the contract to the claimer, exactly the
/// balance stored for the claimer in that asset, and leaves 0 there; with
/// nothing stored it answers `InsufficientBalance` and asks only for the
/// claimer's authorization.
pub proof fn law_referral_claim_pays_the_balance(
    pre: LedgerView,
    ctx: Context,
    address: AccountId,
    token: AccountId,
)
    ensures
        !(pre.referrer_balances.dom().contains((address, token)) && pre.referrer_balances[(address, token)] != 0)
            ==> claim_referral_result(pre, address, token) == Err::<i128, ErrorCode>(ErrorCode::InsufficientBalance)
            && claim_referral_actions(pre, ctx, address, token) == seq![Action::RequireAuth(address)],
        claim_referral_result(pre, address, token) is Ok ==> {
            let b = pre.referrer_balances[(address, token)];
            &&& claim_referral_result(pre, address, token) == Ok::<i128, ErrorCode>(b)
            &&& claim_referral_actions(pre, ctx, address, token) == seq![
                Action::RequireAuth(address),
                Action::RequireAuth(ctx.contract),
                Action::Transfer { token, from: ctx.contract, to: address, amount: b },
                Action::Publish(Event::ReferralClaimed { market_id: 0, claimer: address, amount: b }),
            ]
            &&& ledger_after_referral_claim(pre, address, token).referrer_balances[(address, token)] == 0
        },
{
    assert(claim_referral_actions(pre, ctx, address, token) =~= (if claim_referral_result(pre, address, token) is Ok {
        seq![
            Action::RequireAuth(address),
            Action::RequireAuth(ctx.contract),
            Action::Transfer { token, from: ctx.contract, to: address, amount: pre.referrer_balances[(address, token)] },
            Action::Publish(
                Event::ReferralClaimed { market_id: 0, claimer: address, amount: pre.referrer_balances[(address, token)] },
            ),
        ]
    } else {
        seq![Action::RequireAuth(address)]
    }));
}

/// A referrer is credited a tenth of the fee (rounded toward zero), in the
/// fee's asset only.
pub proof fn law_referral_reward_is_a_tenth(pre: LedgerView, referrer: AccountId, token: AccountId, fee_amount: i128)
    requires
        referral_in_range(pre, referrer, token, fee_amount),
    ensures
        ({
            let post = ledger_after_referral(pre, referrer, token, fee_amount);
            &&& fee_amount >= 0 ==> amount_at(post.referrer_balances, (referrer, token)) == amount_at(
                pre.referrer_balances,
                (referrer, token),
            ) + fee_amount / 10
            &&& fee_amount < 0 ==> amount_at(post.referrer_balances, (referrer, token)) == amount_at(
                pre.referrer_balances,
                (referrer, token),
            ) - (-fee_amount) / 10
            &&& forall|k: (AccountId, AccountId)| k != (referrer, token) ==> #[trigger] amount_at(post.referrer_balances, k)
                == amount_at(pre.referrer_balances, k)
        }),
{
    let f = fee_amount as int;
    if f >= 0 {
        assert((f * 10) / 100 == f / 10) by (nonlinear_arith)
            requires
                f >= 0,
        ;
    } else {
        assert(((-f) * 10) / 100 == (-f) / 10) by (nonlinear_arith)
            requires
                f < 0,
        ;
        assert(-(f * 10) == (-f) * 10);
    }
}

/// Where nothing saturates, each tier pays its share of the fee in basis
/// points, divided once: Basic `amount * base * 10000`, Pro `* 7500`,
/// Institutional `* 5000`, each over 10^8, on non-negative amounts and fees.
pub proof fn law_tier_fees_are_exact(amount: i128, base_fee_bps: i128)
    requires
        amount >= 0,
        base_fee_bps >= 0,
        amount * base_fee_bps * 10000 <= i128::MAX,
    ensures
        tiered_fee(amount as int, base_fee_bps as int, MarketTier::Basic) == amount * base_fee_bps * 10000 / 100000000,
        tiered_fee(amount as int, base_fee_bps as int, MarketTier::Pro) == amount * base_fee_bps * 7500 / 100000000,
        tiered_fee(amount as int, base_fee_bps as int, MarketTier::Institutional) == amount * base_fee_bps * 5000
            / 100000000,
{
    let p = amount * base_fee_bps;
    assert(0 <= p && p * 5000 <= p * 7500 <= p * 10000) by (nonlinear_arith)
        requires
            amount >= 0,
            base_fee_bps >= 0,
            p == amount * base_fee_bps,
    ;
}

} // verus!
