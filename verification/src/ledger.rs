//! The contract's persistent entries that these operations read and write,
//! and the guards that consult them (admin roles, the circuit breaker).
//!
//! An operation that fails leaves the ledger as it was: the host discards
//! every write of an invocation that ends in an error.

use vstd::prelude::*;
use crate::table::Table;
use crate::types::{AccountId, Bet, ErrorCode, Market, MarketView};
use crate::events::Action;

verus! {

pub struct Ledger {
    /// Markets, by id.
    pub markets: Table<u64, Market>,
    /// Bets, by (market id, bettor).
    pub bets: Table<(u64, AccountId), Bet>,
    /// Rounding remainder carried for each market's payouts.
    pub market_remainders: Table<u64, i128>,
    /// Number of claims paid out for each market.
    pub claim_counts: Table<u64, u32>,
    /// Fees collected, by asset.
    pub fee_revenue: Table<AccountId, i128>,
    pub total_fees_collected: Option<i128>,
    /// Referral rewards, by (referrer, asset).
    pub referrer_balances: Table<(AccountId, AccountId), i128>,
    /// The base fee, in basis points.
    pub base_fee: Option<i128>,
    pub admin: Option<AccountId>,
    pub fee_admin: Option<AccountId>,
    /// Whether the circuit breaker holds back high-risk operations.
    pub high_risk_paused: bool,
}

pub struct LedgerView {
    pub markets: Map<u64, MarketView>,
    pub bets: Map<(u64, AccountId), Bet>,
    pub market_remainders: Map<u64, i128>,
    pub claim_counts: Map<u64, u32>,
    pub fee_revenue: Map<AccountId, i128>,
    pub total_fees_collected: Option<i128>,
    pub referrer_balances: Map<(AccountId, AccountId), i128>,
    pub base_fee: Option<i128>,
    pub admin: Option<AccountId>,
    pub fee_admin: Option<AccountId>,
    pub high_risk_paused: bool,
}

impl View for Ledger {
    type V = LedgerView;

    open spec fn view(&self) -> LedgerView {
        LedgerView {
            markets: self.markets@,
            bets: self.bets@,
            market_remainders: self.market_remainders@,
            claim_counts: self.claim_counts@,
            fee_revenue: self.fee_revenue@,
            total_fees_collected: self.total_fees_collected,
            referrer_balances: self.referrer_balances@,
            base_fee: self.base_fee,
            admin: self.admin,
            fee_admin: self.fee_admin,
            high_risk_paused: self.high_risk_paused,
        }
    }
}

/// The amount stored under `k`, 0 where nothing is.
pub open spec fn amount_at<K>(m: Map<K, i128>, k: K) -> int {
    if m.dom().contains(k) {
        m[k] as int
    } else {
        0
    }
}

/// The count stored under `k`, 0 where nothing is.
pub open spec fn count_at<K>(m: Map<K, u32>, k: K) -> int {
    if m.dom().contains(k) {
        m[k] as int
    } else {
        0
    }
}

impl Ledger {
    /// A ledger with nothing in it.
    pub fn new() -> (l: Ledger)
        ensures
            l@.markets == Map::<u64, MarketView>::empty(),
            l@.bets == Map::<(u64, AccountId), Bet>::empty(),
            l@.market_remainders == Map::<u64, i128>::empty(),
            l@.claim_counts == Map::<u64, u32>::empty(),
            l@.fee_revenue == Map::<AccountId, i128>::empty(),
            l@.total_fees_collected == None::<i128>,
            l@.referrer_balances == Map::<(AccountId, AccountId), i128>::empty(),
            l@.base_fee == None::<i128>,
            l@.admin == None::<AccountId>,
            l@.fee_admin == None::<AccountId>,
            !l@.high_risk_paused,
    {
        Ledger {
            markets: Table::new(),
            bets: Table::new(),
            market_remainders: Table::new(),
            claim_counts: Table::new(),
            fee_revenue: Table::new(),
            total_fees_collected: None,
            referrer_balances: Table::new(),
            base_fee: None,
            admin: None,
            fee_admin: None,
            high_risk_paused: false,
        }
    }
}

/// Fails with `NotAuthorized` where no admin is set; otherwise the admin
/// must have authorized the invocation.
pub fn require_admin(ledger: &Ledger, out: &mut Vec<Action>) -> (r: Result<(), ErrorCode>)
    ensures
        match ledger@.admin {
            None => r == Err::<(), ErrorCode>(ErrorCode::NotAuthorized) && final(out)@ == old(out)@,
            Some(a) => r == Ok::<(), ErrorCode>(()) && final(out)@ == old(out)@.push(
                Action::RequireAuth(a),
            ),
        },
{
    match ledger.admin {
        None => Err(ErrorCode::NotAuthorized),
        Some(a) => {
            out.push(Action::RequireAuth(a));
            Ok(())
        },
    }
}

/// The fee admin; `NotAuthorized` where none is set.
pub fn get_fee_admin(ledger: &Ledger) -> (r: Result<AccountId, ErrorCode>)
    ensures
        match ledger@.fee_admin {
            None => r == Err::<AccountId, ErrorCode>(ErrorCode::NotAuthorized),
            Some(a) => r == Ok::<AccountId, ErrorCode>(a),
        },
{
    match ledger.fee_admin {
        None => Err(ErrorCode::NotAuthorized),
        Some(a) => Ok(a),
    }
}

/// Fails with `ContractPaused` while the circuit breaker holds back
/// high-risk operations.
pub fn require_not_paused_for_high_risk(ledger: &Ledger) -> (r: Result<(), ErrorCode>)
    ensures
        r == (if ledger@.high_risk_paused {
            Err::<(), ErrorCode>(ErrorCode::ContractPaused)
        } else {
            Ok::<(), ErrorCode>(())
        }),
{
    if ledger.high_risk_paused {
        Err(ErrorCode::ContractPaused)
    } else {
        Ok(())
    }
}

} // verus!
