use predict_iq::bets::{
    claim_winnings, claim_winnings_fits, collect_market_remainder, collect_market_remainder_fits,
    get_bet, get_market_remainder, place_bet, place_bet_fits, withdraw_refund, REMAINDER_GRACE_PERIOD,
};
use predict_iq::events::{Action, Event};
use predict_iq::fees::get_revenue;
use predict_iq::ledger::Ledger;
use predict_iq::table::Table;
use predict_iq::types::{Bet, Context, ErrorCode, Market, MarketStatus};

const ADMIN: u64 = 1;
const FEE_ADMIN: u64 = 2;
const CONTRACT: u64 = 99;
const TOKEN: u64 = 7;
const ALICE: u64 = 21;
const BOB: u64 = 22;
const CAROL: u64 = 23;

fn ctx(now: u64) -> Context {
    Context { now, contract: CONTRACT }
}

fn market(id: u64, status: MarketStatus) -> Market {
    Market {
        id,
        status,
        parent_id: 0,
        parent_outcome_idx: 0,
        winning_outcome: None,
        deadline: 1_000,
        num_options: 2,
        token_address: TOKEN,
        total_staked: 0,
        outcome_stakes: Table::new(),
        resolved_at: None,
    }
}

fn ledger_with(m: Market) -> Ledger {
    let mut l = Ledger::new();
    l.markets.insert(m.id, m);
    l
}

fn bet(l: &mut Ledger, who: u64, market_id: u64, outcome: u32, amount: i128) -> Result<(), ErrorCode> {
    let mut out = Vec::new();
    assert!(place_bet_fits(l, &ctx(10), who, market_id, outcome, amount, TOKEN, true));
    place_bet(l, &ctx(10), &mut out, who, market_id, outcome, amount, TOKEN, None, true)
}

fn resolve(l: &mut Ledger, market_id: u64, winning: u32, at: u64) {
    let mut m = l.markets.remove(&market_id).unwrap();
    m.status = MarketStatus::Resolved;
    m.winning_outcome = Some(winning);
    m.resolved_at = Some(at);
    l.markets.insert(market_id, m);
}

#[test]
fn place_bet_records_position_and_stakes() {
    let mut l = ledger_with(market(1, MarketStatus::Active));
    let mut out = Vec::new();
    let r = place_bet(&mut l, &ctx(10), &mut out, ALICE, 1, 1, 500, TOKEN, Some(BOB), true);
    assert_eq!(r, Ok(()));
    assert_eq!(
        out,
        vec![
            Action::RequireAuth(ALICE),
            Action::Transfer { token: TOKEN, from: ALICE, to: CONTRACT, amount: 500 },
            Action::Publish(Event::BetPlaced { market_id: 1, bettor: ALICE, outcome: 1, amount: 500 }),
        ]
    );
    assert_eq!(get_bet(&l, 1, ALICE), Some(Bet { market_id: 1, bettor: ALICE, outcome: 1, amount: 500 }));
    assert_eq!(get_bet(&l, 1, BOB), None);
    let m = l.markets.get(&1).unwrap();
    assert_eq!(m.total_staked, 500);
    assert_eq!(m.outcome_stakes.get(&1), Some(&500));
    assert_eq!(m.outcome_stakes.get(&0), None);
}

#[test]
fn repeated_bets_accumulate() {
    let mut l = ledger_with(market(1, MarketStatus::Active));
    bet(&mut l, ALICE, 1, 0, 100).unwrap();
    bet(&mut l, ALICE, 1, 0, 50).unwrap();
    bet(&mut l, BOB, 1, 1, 30).unwrap();
    assert_eq!(get_bet(&l, 1, ALICE).unwrap().amount, 150);
    let m = l.markets.get(&1).unwrap();
    assert_eq!(m.total_staked, 180);
    assert_eq!(m.outcome_stakes.get(&0), Some(&150));
    assert_eq!(m.outcome_stakes.get(&1), Some(&30));
}

#[test]
fn a_live_position_cannot_change_outcome() {
    let mut l = ledger_with(market(1, MarketStatus::Active));
    bet(&mut l, ALICE, 1, 0, 100).unwrap();
    let mut out = Vec::new();
    let r = place_bet(&mut l, &ctx(10), &mut out, ALICE, 1, 1, 10, TOKEN, None, true);
    assert_eq!(r, Err(ErrorCode::CannotChangeOutcome));
    // The stake transfer was asked for before the check; the host undoes it.
    assert_eq!(
        out,
        vec![
            Action::RequireAuth(ALICE),
            Action::Transfer { token: TOKEN, from: ALICE, to: CONTRACT, amount: 10 },
        ]
    );
    assert_eq!(get_bet(&l, 1, ALICE).unwrap().amount, 100);
    assert_eq!(l.markets.get(&1).unwrap().total_staked, 100);
}

#[test]
fn bets_are_refused_where_the_market_does_not_admit_them() {
    let mut l = ledger_with(market(1, MarketStatus::Active));
    let mut out = Vec::new();
    assert_eq!(place_bet(&mut l, &ctx(10), &mut out, ALICE, 5, 0, 1, TOKEN, None, true), Err(ErrorCode::MarketNotFound));
    assert_eq!(out, vec![Action::RequireAuth(ALICE)]);
    assert_eq!(
        place_bet(&mut l, &ctx(1_000), &mut Vec::new(), ALICE, 1, 0, 1, TOKEN, None, true),
        Err(ErrorCode::DeadlinePassed)
    );
    assert_eq!(place_bet(&mut l, &ctx(10), &mut Vec::new(), ALICE, 1, 2, 1, TOKEN, None, true), Err(ErrorCode::InvalidOutcome));
    assert_eq!(
        place_bet(&mut l, &ctx(10), &mut Vec::new(), ALICE, 1, 0, 1, TOKEN + 1, None, true),
        Err(ErrorCode::InvalidBetAmount)
    );
    l.high_risk_paused = true;
    assert_eq!(place_bet(&mut l, &ctx(10), &mut Vec::new(), ALICE, 1, 0, 1, TOKEN, None, true), Err(ErrorCode::ContractPaused));
    assert_eq!(get_bet(&l, 1, ALICE), None);
    assert_eq!(l.markets.get(&1).unwrap().total_staked, 0);

    let mut l = ledger_with(market(2, MarketStatus::Resolved));
    assert_eq!(place_bet(&mut l, &ctx(10), &mut Vec::new(), ALICE, 2, 0, 1, TOKEN, None, true), Err(ErrorCode::MarketNotActive));
}

#[test]
fn conditional_markets_follow_their_parent() {
    let mut child = market(2, MarketStatus::Active);
    child.parent_id = 1;
    child.parent_outcome_idx = 1;
    let mut l = ledger_with(child);
    // No parent stored.
    assert_eq!(place_bet(&mut l, &ctx(10), &mut Vec::new(), ALICE, 2, 0, 1, TOKEN, None, true), Err(ErrorCode::MarketNotFound));
    // Parent still open.
    l.markets.insert(1, market(1, MarketStatus::Active));
    assert_eq!(
        place_bet(&mut l, &ctx(10), &mut Vec::new(), ALICE, 2, 0, 1, TOKEN, None, true),
        Err(ErrorCode::ParentMarketNotResolved)
    );
    // Parent resolved without a winning outcome.
    l.markets.insert(1, market(1, MarketStatus::Resolved));
    assert_eq!(
        place_bet(&mut l, &ctx(10), &mut Vec::new(), ALICE, 2, 0, 1, TOKEN, None, true),
        Err(ErrorCode::ParentMarketNotResolved)
    );
    // Parent resolved to the other outcome.
    resolve(&mut l, 1, 0, 5);
    assert_eq!(
        place_bet(&mut l, &ctx(10), &mut Vec::new(), ALICE, 2, 0, 1, TOKEN, None, true),
        Err(ErrorCode::ParentMarketInvalidOutcome)
    );
    // Parent resolved to the required outcome.
    resolve(&mut l, 1, 1, 5);
    assert_eq!(place_bet(&mut l, &ctx(10), &mut Vec::new(), ALICE, 2, 0, 1, TOKEN, None, true), Ok(()));
}

#[test]
fn place_bet_overflow_is_detected() {
    let mut l = ledger_with(market(1, MarketStatus::Active));
    bet(&mut l, ALICE, 1, 0, i128::MAX).unwrap();
    assert!(!place_bet_fits(&l, &ctx(10), BOB, 1, 1, 1, TOKEN, true));
    // A bet that is refused anyway cannot overflow.
    assert!(place_bet_fits(&l, &ctx(10), BOB, 1, 1, 1, TOKEN + 1, true));
}

/// Alice 100 and Bob 50 on outcome 0, Carol 100 on outcome 1; 0 wins.
fn settled_market() -> Ledger {
    let mut l = ledger_with(market(1, MarketStatus::Active));
    bet(&mut l, ALICE, 1, 0, 100).unwrap();
    bet(&mut l, BOB, 1, 0, 50).unwrap();
    bet(&mut l, CAROL, 1, 1, 100).unwrap();
    resolve(&mut l, 1, 0, 2_000);
    l
}

#[test]
fn winners_claim_their_parimutuel_share_once() {
    let mut l = settled_market();
    // Alice: 100 * 250 / 150 = 166 rem 100; the estimate 150 / 100 = 1 puts
    // the threshold at 0, so the carried 100 is paid with this claim.
    assert!(claim_winnings_fits(&l, ALICE, 1));
    let mut out = Vec::new();
    assert_eq!(claim_winnings(&mut l, &ctx(3_000), &mut out, ALICE, 1, TOKEN), Ok(266));
    assert_eq!(
        out,
        vec![
            Action::RequireAuth(ALICE),
            Action::Transfer { token: TOKEN, from: CONTRACT, to: ALICE, amount: 266 },
            Action::Publish(Event::RewardsClaimed {
                market_id: 1,
                claimer: ALICE,
                amount: 266,
                token_address: TOKEN,
                is_refund: false,
            }),
        ]
    );
    assert_eq!(get_market_remainder(&l, 1), 0);
    assert_eq!(get_bet(&l, 1, ALICE), None);
    assert_eq!(l.claim_counts.get(&1), Some(&1));

    let mut out = Vec::new();
    assert_eq!(claim_winnings(&mut l, &ctx(3_000), &mut out, ALICE, 1, TOKEN), Err(ErrorCode::MarketNotFound));
    assert_eq!(out, vec![Action::RequireAuth(ALICE)]);

    // Bob: 50 * 250 / 150 = 83 rem 50; threshold 150 / 50 - 1 = 2 and this is
    // the second claim, so the carried 50 is paid too.
    assert_eq!(claim_winnings(&mut l, &ctx(3_000), &mut Vec::new(), BOB, 1, TOKEN), Ok(133));
    assert_eq!(get_market_remainder(&l, 1), 0);
    assert_eq!(l.claim_counts.get(&1), Some(&2));
}

#[test]
fn remainder_is_carried_until_the_last_claims() {
    // Four winners of 10 each on outcome 0, one loser of 3: pool 43.
    let mut l = ledger_with(market(1, MarketStatus::Active));
    for who in [30u64, 31, 32, 33] {
        bet(&mut l, who, 1, 0, 10).unwrap();
    }
    bet(&mut l, 40, 1, 1, 3).unwrap();
    resolve(&mut l, 1, 0, 2_000);
    // 10 * 43 / 40 = 10 rem 30; threshold 40 / 10 - 1 = 3; first claim: carry 30.
    assert_eq!(claim_winnings(&mut l, &ctx(3_000), &mut Vec::new(), 30, 1, TOKEN), Ok(10));
    assert_eq!(get_market_remainder(&l, 1), 30);
    // Second claim: carry 60.
    assert_eq!(claim_winnings(&mut l, &ctx(3_000), &mut Vec::new(), 31, 1, TOKEN), Ok(10));
    assert_eq!(get_market_remainder(&l, 1), 60);
    // Third claim reaches the threshold: 10 + 90.
    assert_eq!(claim_winnings(&mut l, &ctx(3_000), &mut Vec::new(), 32, 1, TOKEN), Ok(100));
    assert_eq!(get_market_remainder(&l, 1), 0);
    // The loser's claim is refused.
    assert_eq!(claim_winnings(&mut l, &ctx(3_000), &mut Vec::new(), 40, 1, TOKEN), Err(ErrorCode::InvalidOutcome));
}

#[test]
fn claims_are_refused_before_resolution_and_for_strangers() {
    let mut l = ledger_with(market(1, MarketStatus::Active));
    bet(&mut l, ALICE, 1, 0, 100).unwrap();
    assert_eq!(
        claim_winnings(&mut l, &ctx(3_000), &mut Vec::new(), ALICE, 1, TOKEN),
        Err(ErrorCode::MarketNotPendingResolution)
    );
    let mut m = l.markets.remove(&1).unwrap();
    m.status = MarketStatus::Resolved;
    l.markets.insert(1, m);
    assert_eq!(
        claim_winnings(&mut l, &ctx(3_000), &mut Vec::new(), ALICE, 1, TOKEN),
        Err(ErrorCode::MarketNotPendingResolution)
    );
    resolve(&mut l, 1, 1, 2_000);
    // Alice bet on 0; outcome 1 won and carries no stake.
    assert_eq!(claim_winnings(&mut l, &ctx(3_000), &mut Vec::new(), ALICE, 1, TOKEN), Err(ErrorCode::InvalidOutcome));
    assert_eq!(claim_winnings(&mut l, &ctx(3_000), &mut Vec::new(), BOB, 1, TOKEN), Err(ErrorCode::MarketNotFound));
    assert_eq!(claim_winnings(&mut l, &ctx(3_000), &mut Vec::new(), ALICE, 9, TOKEN), Err(ErrorCode::MarketNotFound));
}

#[test]
fn winning_outcome_without_stake_is_refused() {
    let mut l = ledger_with(market(1, MarketStatus::Active));
    l.bets.insert((1, ALICE), Bet { market_id: 1, bettor: ALICE, outcome: 0, amount: 5 });
    resolve(&mut l, 1, 0, 2_000);
    assert_eq!(claim_winnings(&mut l, &ctx(3_000), &mut Vec::new(), ALICE, 1, TOKEN), Err(ErrorCode::InvalidOutcome));
    assert_eq!(get_bet(&l, 1, ALICE).unwrap().amount, 5);
}

#[test]
fn zero_stake_claim_does_not_fit() {
    let mut l = ledger_with(market(1, MarketStatus::Active));
    bet(&mut l, ALICE, 1, 0, 100).unwrap();
    bet(&mut l, BOB, 1, 0, 0).unwrap();
    resolve(&mut l, 1, 0, 2_000);
    assert!(!claim_winnings_fits(&l, BOB, 1));
    assert!(claim_winnings_fits(&l, ALICE, 1));
    assert!(claim_winnings_fits(&l, CAROL, 1));
}

#[test]
fn refunds_return_the_stake_once() {
    let mut l = ledger_with(market(1, MarketStatus::Active));
    bet(&mut l, ALICE, 1, 0, 70).unwrap();
    bet(&mut l, ALICE, 1, 0, 5).unwrap();
    assert_eq!(withdraw_refund(&mut l, &ctx(20), &mut Vec::new(), ALICE, 1, TOKEN), Err(ErrorCode::MarketNotActive));
    let mut m = l.markets.remove(&1).unwrap();
    m.status = MarketStatus::Cancelled;
    l.markets.insert(1, m);
    let mut out = Vec::new();
    assert_eq!(withdraw_refund(&mut l, &ctx(20), &mut out, ALICE, 1, TOKEN), Ok(75));
    assert_eq!(
        out,
        vec![
            Action::RequireAuth(ALICE),
            Action::Transfer { token: TOKEN, from: CONTRACT, to: ALICE, amount: 75 },
            Action::Publish(Event::RewardsClaimed {
                market_id: 1,
                claimer: ALICE,
                amount: 75,
                token_address: TOKEN,
                is_refund: true,
            }),
        ]
    );
    assert_eq!(withdraw_refund(&mut l, &ctx(20), &mut Vec::new(), ALICE, 1, TOKEN), Err(ErrorCode::MarketNotFound));
    assert_eq!(withdraw_refund(&mut l, &ctx(20), &mut Vec::new(), ALICE, 3, TOKEN), Err(ErrorCode::MarketNotFound));
}

fn with_carried_remainder() -> Ledger {
    let mut l = settled_market();
    l.market_remainders.insert(1, 40);
    l
}

#[test]
fn remainder_is_swept_to_the_fee_admin_once() {
    let mut l = with_carried_remainder();
    l.admin = Some(ADMIN);
    l.fee_admin = Some(FEE_ADMIN);
    let late = 2_000 + REMAINDER_GRACE_PERIOD;
    assert!(collect_market_remainder_fits(&l, &ctx(late), 1, TOKEN));
    let mut out = Vec::new();
    assert_eq!(collect_market_remainder(&mut l, &ctx(late), &mut out, 1, TOKEN), Ok(40));
    assert_eq!(
        out,
        vec![
            Action::RequireAuth(ADMIN),
            Action::Publish(Event::FeeCollected { contract_address: CONTRACT, amount: 40 }),
            Action::Transfer { token: TOKEN, from: CONTRACT, to: FEE_ADMIN, amount: 40 },
        ]
    );
    assert_eq!(get_market_remainder(&l, 1), 0);
    assert_eq!(get_revenue(&l, TOKEN), 40);
    assert_eq!(
        collect_market_remainder(&mut l, &ctx(late), &mut Vec::new(), 1, TOKEN),
        Err(ErrorCode::InsufficientBalance)
    );
}

#[test]
fn remainder_sweep_is_refused_until_allowed() {
    let mut l = with_carried_remainder();
    let late = 2_000 + REMAINDER_GRACE_PERIOD;
    let mut out = Vec::new();
    assert_eq!(collect_market_remainder(&mut l, &ctx(late), &mut out, 1, TOKEN), Err(ErrorCode::NotAuthorized));
    assert!(out.is_empty());
    l.admin = Some(ADMIN);
    assert_eq!(
        collect_market_remainder(&mut l, &ctx(late - 1), &mut Vec::new(), 1, TOKEN),
        Err(ErrorCode::MarketStillActive)
    );
    assert_eq!(collect_market_remainder(&mut l, &ctx(late), &mut Vec::new(), 8, TOKEN), Err(ErrorCode::MarketNotFound));
    // No fee admin: the fee is booked and announced, then the invocation fails.
    let mut out = Vec::new();
    assert_eq!(collect_market_remainder(&mut l, &ctx(late), &mut out, 1, TOKEN), Err(ErrorCode::NotAuthorized));
    assert_eq!(
        out,
        vec![
            Action::RequireAuth(ADMIN),
            Action::Publish(Event::FeeCollected { contract_address: CONTRACT, amount: 40 }),
        ]
    );
    assert_eq!(get_market_remainder(&l, 1), 40);
    assert_eq!(get_revenue(&l, TOKEN), 0);

    let mut m = l.markets.remove(&1).unwrap();
    m.resolved_at = None;
    l.markets.insert(1, m);
    assert_eq!(collect_market_remainder(&mut l, &ctx(late), &mut Vec::new(), 1, TOKEN), Err(ErrorCode::MarketNotActive));
    let mut m = l.markets.remove(&1).unwrap();
    m.status = MarketStatus::Cancelled;
    l.markets.insert(1, m);
    assert_eq!(collect_market_remainder(&mut l, &ctx(late), &mut Vec::new(), 1, TOKEN), Err(ErrorCode::MarketNotActive));
}

#[test]
fn remainder_sweep_overflow_is_detected() {
    let mut l = with_carried_remainder();
    l.admin = Some(ADMIN);
    resolve(&mut l, 1, 0, u64::MAX - 10);
    assert!(!collect_market_remainder_fits(&l, &ctx(u64::MAX), 1, TOKEN));
}

#[test]
fn the_pool_stays_balanced_across_bets() {
    let mut l = ledger_with(market(1, MarketStatus::Active));
    bet(&mut l, ALICE, 1, 0, 40).unwrap();
    bet(&mut l, BOB, 1, 1, 25).unwrap();
    bet(&mut l, ALICE, 1, 0, 5).unwrap();
    let _ = place_bet(&mut l, &ctx(10), &mut Vec::new(), BOB, 1, 0, 9, TOKEN, None, true);
    let m = l.markets.get(&1).unwrap();
    let sum: i128 = (0..m.num_options).map(|o| *m.outcome_stakes.get(&o).unwrap_or(&0)).sum();
    assert_eq!(m.total_staked, sum);
    assert_eq!(m.total_staked, 70);
}

#[test]
fn base_shares_stay_within_the_pool_but_carried_remainders_can_exceed_it() {
    let l = settled_market();
    // Base shares: 100 * 250 / 150 = 166 and 50 * 250 / 150 = 83; 249 <= 250.
    let mut l2 = settled_market();
    let a = claim_winnings(&mut l2, &ctx(3_000), &mut Vec::new(), ALICE, 1, TOKEN).unwrap();
    let b = claim_winnings(&mut l2, &ctx(3_000), &mut Vec::new(), BOB, 1, TOKEN).unwrap();
    assert_eq!(166 + 83, 249);
    assert!(166 + 83 <= l.markets.get(&1).unwrap().total_staked);
    // With the carried remainders paid on top, the two claims pay 399.
    assert_eq!(a + b, 399);
}

#[test]
fn a_refused_stake_transfer_is_an_error() {
    let mut l = ledger_with(market(1, MarketStatus::Active));
    let mut out = Vec::new();
    let r = place_bet(&mut l, &ctx(10), &mut out, ALICE, 1, 0, 40, TOKEN, None, false);
    assert_eq!(r, Err(ErrorCode::TransferFailed));
    assert_eq!(
        out,
        vec![
            Action::RequireAuth(ALICE),
            Action::Transfer { token: TOKEN, from: ALICE, to: CONTRACT, amount: 40 },
        ]
    );
    assert_eq!(get_bet(&l, 1, ALICE), None);
    assert_eq!(l.markets.get(&1).unwrap().total_staked, 0);
    // A bet the market refuses is not transferred at all, accepted or not.
    let mut out = Vec::new();
    assert_eq!(
        place_bet(&mut l, &ctx(10), &mut out, ALICE, 1, 5, 40, TOKEN, None, false),
        Err(ErrorCode::InvalidOutcome)
    );
    assert_eq!(out, vec![Action::RequireAuth(ALICE)]);
}

#[test]
fn a_refused_sweep_never_overflows() {
    // Revenue at the top of its range: a sweep refused before the fee is
    // booked answers with its error.
    let mut l = with_carried_remainder();
    let mut out = Vec::new();
    predict_iq::fees::collect_fee(&mut l, &ctx(1), &mut out, TOKEN, i128::MAX);
    let late = 2_000 + REMAINDER_GRACE_PERIOD;
    assert!(collect_market_remainder_fits(&l, &ctx(late), 1, TOKEN));
    assert_eq!(collect_market_remainder(&mut l, &ctx(late), &mut Vec::new(), 1, TOKEN), Err(ErrorCode::NotAuthorized));
    l.admin = Some(ADMIN);
    assert!(collect_market_remainder_fits(&l, &ctx(late - 1), 1, TOKEN));
    assert_eq!(
        collect_market_remainder(&mut l, &ctx(late - 1), &mut Vec::new(), 1, TOKEN),
        Err(ErrorCode::MarketStillActive)
    );
    // Without a fee admin the fee is never booked either.
    assert!(collect_market_remainder_fits(&l, &ctx(late), 1, TOKEN));
    l.fee_admin = Some(FEE_ADMIN);
    assert!(!collect_market_remainder_fits(&l, &ctx(late), 1, TOKEN));
}
