//! Verified core of a parimutuel prediction market: bets, claims, refunds,
//! fees and referral rewards, kept as pure transitions over a ledger of the
//! contract's persistent entries.

pub mod table;
pub mod arith;
pub mod types;
pub mod events;
pub mod ledger;
pub mod sac;
pub mod bets;
pub mod fees;
pub mod laws;
