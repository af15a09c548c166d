//! Transfers of Stellar assets, and the balance check against clawback.

use vstd::prelude::*;
use crate::events::Action;
use crate::types::{AccountId, ErrorCode};

verus! {

/// Moves `amount` of `token_address` from `from` to `to`, handling a
/// refused transfer as an error instead of a host panic.  The transfer is
/// attempted on the host; `accepted` is whether the asset carried it out (it
/// refuses, for one, a frozen or clawed-back balance).
pub fn safe_transfer(
    out: &mut Vec<Action>,
    token_address: AccountId,
    from: AccountId,
    to: AccountId,
    amount: i128,
    accepted: bool,
) -> (r: Result<(), ErrorCode>)
    ensures
        r == (if accepted {
            Ok::<(), ErrorCode>(())
        } else {
            Err::<(), ErrorCode>(ErrorCode::TransferFailed)
        }),
        final(out)@ == old(out)@.push(Action::Transfer { token: token_address, from, to, amount }),
{
    out.push(Action::Transfer { token: token_address, from, to, amount });
    if accepted {
        Ok(())
    } else {
        Err(ErrorCode::TransferFailed)
    }
}

/// Given the contract's actual balance of an asset, fails with
/// `AssetClawedBack` when it is below what the contract expects to hold.
pub fn detect_clawback(actual_balance: i128, expected_balance: i128) -> (r: Result<(), ErrorCode>)
    ensures
        r == (if actual_balance < expected_balance {
            Err::<(), ErrorCode>(ErrorCode::AssetClawedBack)
        } else {
            Ok::<(), ErrorCode>(())
        }),
{
    if actual_balance < expected_balance {
        return Err(ErrorCode::AssetClawedBack);
    }
    Ok(())
}

} // verus!
