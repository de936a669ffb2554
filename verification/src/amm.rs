//! Program surface of the constant-product exchange: the operations the
//! administrative interface exposes for one automated market.

use vstd::prelude::*;
use crate::errors::{CustomError, MarketError};
use crate::pda::{amm_seeds, derive_amm_address, found_program_address};
use crate::state::{AmmState, MarketState};
use crate::swap::{handle_swap, Swap, SwapQuote};

verus! {

/// Initialize the automated market for one market record: derive the
/// bookkeeping record's address and fix its bump.
pub fn handle_initialize_amm(market: &[u8; 32], program_id: &[u8; 32]) -> (r: Result<
    AmmState,
    CustomError,
>)
    ensures
        (r is Ok) <==> found_program_address(amm_seeds(market@), program_id@) is Some,
        r is Err ==> r == Err::<AmmState, CustomError>(CustomError::DerivationFailed),
        r matches Ok(amm) ==> ({
            &&& amm.market@ == market@
            &&& (found_program_address(amm_seeds(market@), program_id@) matches Some(p) && p.1
                == amm.amm_bump)
        }),
{
    match derive_amm_address(market, program_id) {
        Some((_address, amm_bump)) => Ok(AmmState { market: *market, amm_bump }),
        None => Err(CustomError::DerivationFailed),
    }
}

/// Initialize the automated market for a specific market record.
pub fn initialize_amm(market: &[u8; 32], program_id: &[u8; 32]) -> (r: Result<
    AmmState,
    CustomError,
>)
    ensures
        (r is Ok) <==> found_program_address(amm_seeds(market@), program_id@) is Some,
        r is Err ==> r == Err::<AmmState, CustomError>(CustomError::DerivationFailed),
        r matches Ok(amm) ==> ({
            &&& amm.market@ == market@
            &&& (found_program_address(amm_seeds(market@), program_id@) matches Some(p) && p.1
                == amm.amm_bump)
        }),
{
    handle_initialize_amm(market, program_id)
}

/// Swap one token for the other in the liquidity pool.  The presented
/// market and vault-authority addresses are first re-derived from the
/// market record's immutable fields and stored bumps — a caller-supplied
/// address is never trusted blindly — then the trade prices under the
/// constant-product invariant and commits all-or-nothing.
pub fn swap(
    market: &MarketState,
    market_address: &[u8; 32],
    market_authority: &[u8; 32],
    program_id: &[u8; 32],
    accounts: &mut Swap,
    amount_in: u64,
    swap_for_bond: bool,
) -> (r: Result<SwapQuote, MarketError>)
    ensures
        ({
            let valid = crate::pda::derives_to(
                crate::pda::market_seeds(market.issuer_name@),
                market.market_bump,
                program_id@,
                market_address@,
            ) && crate::pda::derives_to(
                crate::pda::authority_seeds(market_address@),
                market.market_authority_bump,
                program_id@,
                market_authority@,
            );
            let rin = crate::swap::reserve_in_of(*old(accounts), swap_for_bond);
            let rout = crate::swap::reserve_out_of(*old(accounts), swap_for_bond);
            let net = crate::swap::net_amount_out(
                rin,
                rout,
                amount_in as int,
                crate::swap::FEE_BPS as int,
            );
            &&& ((r == Err::<SwapQuote, MarketError>(MarketError::ValidationError)) <==> !valid)
            &&& ((r == Err::<SwapQuote, MarketError>(MarketError::MarketPaused)) <==> (valid
                && market.paused))
            &&& ((r == Err::<SwapQuote, MarketError>(MarketError::MathOverflow)) <==> (valid
                && !market.paused && rin + amount_in == 0))
            &&& ((r == Err::<SwapQuote, MarketError>(MarketError::TransferFailure)) <==> (valid
                && !market.paused && rin + amount_in > 0 && !(crate::swap::pay_in_ok(
                *old(accounts),
                amount_in as int,
                swap_for_bond,
            ) && crate::swap::pay_out_ok(*old(accounts), net, swap_for_bond))))
            &&& ((r is Ok) <==> (valid && !market.paused && rin + amount_in > 0
                && crate::swap::pay_in_ok(*old(accounts), amount_in as int, swap_for_bond)
                && crate::swap::pay_out_ok(*old(accounts), net, swap_for_bond)))
            &&& (r is Err ==> *final(accounts) == *old(accounts))
            &&& (r matches Ok(q) ==> ({
                &&& q.amount_out == crate::swap::cp_amount_out(rin, rout, amount_in as int)
                &&& q.fee == crate::swap::fee_of(
                    crate::swap::cp_amount_out(rin, rout, amount_in as int),
                    crate::swap::FEE_BPS as int,
                )
                &&& q.final_amount_out == net
                &&& crate::swap::reserve_in_of(*final(accounts), swap_for_bond) == rin + amount_in
                &&& crate::swap::reserve_out_of(*final(accounts), swap_for_bond) == rout - net
                &&& (swap_for_bond ==> *final(accounts) == (Swap {
                    user_quote: (old(accounts).user_quote - amount_in) as u64,
                    user_bond: (old(accounts).user_bond + net) as u64,
                    quote_vault: (old(accounts).quote_vault + amount_in) as u64,
                    bond_vault: (old(accounts).bond_vault - net) as u64,
                }))
                &&& (!swap_for_bond ==> *final(accounts) == (Swap {
                    user_quote: (old(accounts).user_quote + net) as u64,
                    user_bond: (old(accounts).user_bond - amount_in) as u64,
                    quote_vault: (old(accounts).quote_vault - net) as u64,
                    bond_vault: (old(accounts).bond_vault + amount_in) as u64,
                }))
            }))
        }),
{
    let market_ok = crate::pda::verify_market_address(
        &market.issuer_name,
        market.market_bump,
        program_id,
        market_address,
    );
    let authority_ok = crate::pda::verify_authority_address(
        market_address,
        market.market_authority_bump,
        program_id,
        market_authority,
    );
    if !market_ok || !authority_ok {
        return Err(MarketError::ValidationError);
    }
    handle_swap(market, accounts, amount_in, swap_for_bond)
}

/// Accounts of the coupon-claim flow, a declared future extension point.
pub struct ClaimCoupon {
}

/// Accounts of the bond-redemption flow, a declared future extension
/// point.
pub struct Redeem {
}

/// Claim a coupon period's interest.  The flow is a declared future
/// extension point: it reports that explicitly rather than silently
/// succeeding, so a caller cannot mistake a no-op for a completed
/// financial action.
pub fn claim_coupon(_accounts: &ClaimCoupon) -> (r: Result<(), MarketError>)
    ensures
        r == Err::<(), MarketError>(MarketError::Unimplemented),
{
    Err(MarketError::Unimplemented)
}

/// Redeem a matured bond.  The flow is a declared future extension point:
/// it reports that explicitly rather than silently succeeding.
pub fn redeem_bond(_accounts: &Redeem) -> (r: Result<(), MarketError>)
    ensures
        r == Err::<(), MarketError>(MarketError::Unimplemented),
{
    Err(MarketError::Unimplemented)
}

} // verus!
