//! Model of the ledger's token-transfer primitive at its interface
//! boundary: moving an amount between two balances, failing — with no
//! change — when the payer is short of funds or the receiving balance
//! would overflow.  An operation that issues a pair of transfers works on
//! copies of the balances and commits them only when the whole pair went
//! through, so a failure is never observable as a partial state.

use vstd::prelude::*;
use crate::errors::MarketError;

verus! {

/// Move `amount` from one balance to another; all or nothing.
pub fn transfer(from: &mut u64, to: &mut u64, amount: u64) -> (r: Result<(), MarketError>)
    ensures
        (r is Ok) <==> (amount <= *old(from) && *old(to) + amount <= u64::MAX),
        r is Ok ==> *final(from) == *old(from) - amount && *final(to) == *old(to) + amount,
        r is Err ==> *final(from) == *old(from) && *final(to) == *old(to)
            && r == Err::<(), MarketError>(MarketError::TransferFailure),
{
    if amount > *from {
        return Err(MarketError::TransferFailure);
    }
    if *to > u64::MAX - amount {
        return Err(MarketError::TransferFailure);
    }
    *from = *from - amount;
    *to = *to + amount;
    Ok(())
}

} // verus!
