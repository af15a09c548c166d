use predict_iq::events::{Action, Event};
use predict_iq::fees::{
    add_referral_reward, calculate_fee, calculate_tiered_fee, calculate_tiered_fee_with_base,
    claim_referral_rewards, collect_fee, get_base_fee, get_revenue, set_base_fee, tier_multiplier_bps,
    withdraw_protocol_fees, add_referral_reward_fits, collect_fee_fits,
};
use predict_iq::ledger::Ledger;
use predict_iq::types::{Context, ErrorCode, MarketTier};

const ADMIN: u64 = 1;
const CONTRACT: u64 = 99;
const TOKEN: u64 = 7;

fn ctx() -> Context {
    Context { now: 1_000, contract: CONTRACT }
}

#[test]
fn tiered_fee_keeps_fractional_discount_precision() {
    // 1 bps base fee with Pro tier (25% discount):
    // dividing the discount first would give 0; dividing once keeps 0.75 bps.
    let basic_fee = calculate_tiered_fee_with_base(4_000_000, 1, &MarketTier::Basic);
    let pro_fee = calculate_tiered_fee_with_base(4_000_000, 1, &MarketTier::Pro);
    assert_eq!(basic_fee, 400);
    assert_eq!(pro_fee, 300);
}

#[test]
fn tiered_fee_uses_expected_discount_ratio() {
    let basic_fee = calculate_tiered_fee_with_base(10_000, 100, &MarketTier::Basic);
    let pro_fee = calculate_tiered_fee_with_base(10_000, 100, &MarketTier::Pro);
    let inst_fee = calculate_tiered_fee_with_base(10_000, 100, &MarketTier::Institutional);

    assert_eq!(basic_fee, 100);
    assert_eq!(pro_fee, 75);
    assert_eq!(inst_fee, 50);
}

#[test]
fn four_unit_bet_applies_pro_discount() {
    let basic_fee = calculate_tiered_fee_with_base(4, 10_000, &MarketTier::Basic);
    let pro_fee = calculate_tiered_fee_with_base(4, 10_000, &MarketTier::Pro);

    assert_eq!(basic_fee, 4);
    assert_eq!(pro_fee, 3);
}

#[test]
fn tier_multipliers_are_in_basis_points() {
    assert_eq!(tier_multiplier_bps(&MarketTier::Basic), 10_000);
    assert_eq!(tier_multiplier_bps(&MarketTier::Pro), 7_500);
    assert_eq!(tier_multiplier_bps(&MarketTier::Institutional), 5_000);
}

#[test]
fn tiered_fee_saturates_instead_of_overflowing() {
    assert_eq!(calculate_tiered_fee_with_base(i128::MAX, 2, &MarketTier::Basic), i128::MAX / 100_000_000);
    assert_eq!(calculate_tiered_fee_with_base(i128::MIN, 2, &MarketTier::Basic), i128::MIN / 100_000_000);
}

#[test]
fn tiered_fee_rounds_toward_zero_on_negatives() {
    assert_eq!(calculate_tiered_fee_with_base(-4, 10_000, &MarketTier::Pro), -3);
    assert_eq!(calculate_tiered_fee_with_base(-1, 1, &MarketTier::Basic), 0);
}

#[test]
fn tier_discounts_are_ordered_on_examples() {
    for (amount, base) in [(0i128, 0i128), (1, 1), (4, 10_000), (123_456_789, 37), (10_000, 100)] {
        let b = calculate_tiered_fee_with_base(amount, base, &MarketTier::Basic);
        let p = calculate_tiered_fee_with_base(amount, base, &MarketTier::Pro);
        let i = calculate_tiered_fee_with_base(amount, base, &MarketTier::Institutional);
        assert!(0 <= i && i <= p && p <= b);
    }
}

#[test]
fn basic_tier_equals_flat_fee() {
    let mut ledger = Ledger::new();
    ledger.admin = Some(ADMIN);
    let mut out = Vec::new();
    set_base_fee(&mut ledger, &mut out, 37).unwrap();
    for amount in [0i128, 1, 270, 271, 123_456_789, -5_000] {
        assert_eq!(calculate_fee(&ledger, amount), calculate_tiered_fee(&ledger, amount, &MarketTier::Basic));
    }
    assert_eq!(calculate_fee(&ledger, 123_456_789), 456_790);
}

#[test]
fn base_fee_defaults_to_zero_and_reads_back() {
    let mut ledger = Ledger::new();
    assert_eq!(get_base_fee(&ledger), 0);
    assert_eq!(calculate_fee(&ledger, 1_000_000), 0);
    let mut out = Vec::new();
    assert_eq!(set_base_fee(&mut ledger, &mut out, 250), Err(ErrorCode::NotAuthorized));
    assert!(out.is_empty());
    assert_eq!(get_base_fee(&ledger), 0);
    ledger.admin = Some(ADMIN);
    assert_eq!(set_base_fee(&mut ledger, &mut out, 250), Ok(()));
    assert_eq!(out, vec![Action::RequireAuth(ADMIN)]);
    assert_eq!(get_base_fee(&ledger), 250);
    assert_eq!(calculate_fee(&ledger, 1_000_000), 25_000);
    assert_eq!(calculate_tiered_fee(&ledger, 1_000_000, &MarketTier::Institutional), 12_500);
}

#[test]
fn collected_fees_are_withdrawn_once() {
    let mut ledger = Ledger::new();
    ledger.admin = Some(ADMIN);
    let mut out = Vec::new();
    assert!(collect_fee_fits(&ledger, TOKEN, 500));
    collect_fee(&mut ledger, &ctx(), &mut out, TOKEN, 500);
    collect_fee(&mut ledger, &ctx(), &mut out, TOKEN, 250);
    assert_eq!(get_revenue(&ledger, TOKEN), 750);
    assert_eq!(get_revenue(&ledger, TOKEN + 1), 0);
    assert_eq!(ledger.total_fees_collected, Some(750));
    assert_eq!(
        out,
        vec![
            Action::Publish(Event::FeeCollected { contract_address: CONTRACT, amount: 500 }),
            Action::Publish(Event::FeeCollected { contract_address: CONTRACT, amount: 250 }),
        ]
    );

    let mut out = Vec::new();
    let recipient = 42;
    assert_eq!(withdraw_protocol_fees(&mut ledger, &ctx(), &mut out, &TOKEN, &recipient), Ok(750));
    assert_eq!(
        out,
        vec![
            Action::RequireAuth(ADMIN),
            Action::Transfer { token: TOKEN, from: CONTRACT, to: recipient, amount: 750 },
            Action::Publish(Event::FeesWithdrawn { recipient, amount: 750 }),
        ]
    );
    assert_eq!(get_revenue(&ledger, TOKEN), 0);
    assert_eq!(ledger.total_fees_collected, Some(750));

    let mut out = Vec::new();
    assert_eq!(
        withdraw_protocol_fees(&mut ledger, &ctx(), &mut out, &TOKEN, &recipient),
        Err(ErrorCode::InsufficientBalance)
    );
    assert_eq!(out, vec![Action::RequireAuth(ADMIN)]);
}

#[test]
fn fee_withdrawal_needs_an_admin() {
    let mut ledger = Ledger::new();
    let mut out = Vec::new();
    collect_fee(&mut ledger, &ctx(), &mut out, TOKEN, 10);
    let mut out = Vec::new();
    assert_eq!(withdraw_protocol_fees(&mut ledger, &ctx(), &mut out, &TOKEN, &5), Err(ErrorCode::NotAuthorized));
    assert!(out.is_empty());
    assert_eq!(get_revenue(&ledger, TOKEN), 10);
}

#[test]
fn collect_fee_overflow_is_detected() {
    let mut ledger = Ledger::new();
    let mut out = Vec::new();
    collect_fee(&mut ledger, &ctx(), &mut out, TOKEN, i128::MAX);
    assert!(!collect_fee_fits(&ledger, TOKEN, 1));
    assert!(collect_fee_fits(&ledger, TOKEN, -1));
}

#[test]
fn referral_reward_is_a_tenth_and_claimed_once() {
    let mut ledger = Ledger::new();
    let referrer = 11;
    let mut out = Vec::new();
    assert!(add_referral_reward_fits(&ledger, &referrer, &TOKEN, 1_000));
    add_referral_reward(&mut ledger, &mut out, &referrer, &TOKEN, 1_000);
    add_referral_reward(&mut ledger, &mut out, &referrer, &TOKEN, 59);
    assert_eq!(
        out,
        vec![
            Action::Publish(Event::ReferralReward { market_id: 0, referrer, amount: 100 }),
            Action::Publish(Event::ReferralReward { market_id: 0, referrer, amount: 5 }),
        ]
    );
    // A balance in another asset is kept apart.
    let mut out = Vec::new();
    assert_eq!(
        claim_referral_rewards(&mut ledger, &ctx(), &mut out, &referrer, &(TOKEN + 1)),
        Err(ErrorCode::InsufficientBalance)
    );
    assert_eq!(out, vec![Action::RequireAuth(referrer)]);

    let mut out = Vec::new();
    assert_eq!(claim_referral_rewards(&mut ledger, &ctx(), &mut out, &referrer, &TOKEN), Ok(105));
    assert_eq!(
        out,
        vec![
            Action::RequireAuth(referrer),
            Action::RequireAuth(CONTRACT),
            Action::Transfer { token: TOKEN, from: CONTRACT, to: referrer, amount: 105 },
            Action::Publish(Event::ReferralClaimed { market_id: 0, claimer: referrer, amount: 105 }),
        ]
    );
    let mut out = Vec::new();
    assert_eq!(
        claim_referral_rewards(&mut ledger, &ctx(), &mut out, &referrer, &TOKEN),
        Err(ErrorCode::InsufficientBalance)
    );
}

#[test]
fn referral_reward_overflow_is_detected() {
    let ledger = Ledger::new();
    assert!(!add_referral_reward_fits(&ledger, &1, &TOKEN, i128::MAX / 5));
    assert!(add_referral_reward_fits(&ledger, &1, &TOKEN, i128::MAX / 10));
}
