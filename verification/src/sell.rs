//! Fixed-price sell execution.
//!
//! A sell deposits `amount` bond tokens into the bond vault first, then
//! checks the quote vault's solvency explicitly before paying out
//! `price_per_token * amount` quote tokens — the deposit has already gone
//! through, so insufficiency must be discovered before the outgoing
//! transfer, not by it.  The pair still commits all-or-nothing: a failed
//! solvency check rolls the deposit back with the rest of the operation.

use vstd::prelude::*;
use crate::buy::{TradeEvent, TradeSide};
use crate::errors::MarketError;
use crate::pda::{derives_to, fixed_market_seeds, verify_fixed_market_address};
use crate::state::Market;
use crate::transfer::transfer;

verus! {

/// Balances and identity that one fixed-price sell reads and writes.
#[derive(Clone, Copy, Debug, PartialEq, Eq)]
pub struct Sell {
    /// The seller's identity, for the trade record.
    pub seller: [u8; 32],
    /// The seller's bond-token balance.
    pub seller_bond: u64,
    /// The seller's quote-token balance.
    pub seller_usdc: u64,
    /// The bond vault's balance.
    pub vault_bond: u64,
    /// The quote vault's balance.
    pub vault_usdc: u64,
}

/// Whether the seller's deposit (seller to bond vault) can go through.
pub open spec fn sell_deposit_ok(b: Sell, amount: int) -> bool {
    amount <= b.seller_bond && b.vault_bond + amount <= u64::MAX
}

/// Whether the quote payout (quote vault to seller) can go through once
/// the vault has been found solvent.
pub open spec fn sell_payout_ok(b: Sell, total_price: int) -> bool {
    b.seller_usdc + total_price <= u64::MAX
}

/// Execute one fixed-price sell of `amount` bond tokens at the market's
/// configured price.  A sell whose total consideration exceeds the quote
/// vault's balance fails with `InsufficientVaultFunds` and leaves every
/// balance — the bond vault's included — unchanged.
pub fn handler(
    market: &Market,
    market_address: &[u8; 32],
    program_id: &[u8; 32],
    accounts: &mut Sell,
    amount: u64,
) -> (r: Result<TradeEvent, MarketError>)
    ensures
        ({
            let valid = derives_to(
                fixed_market_seeds(market.bond_mint@),
                market.bump,
                program_id@,
                market_address@,
            );
            let total = market.price_per_token * amount;
            &&& ((r == Err::<TradeEvent, MarketError>(MarketError::ValidationError)) <==> !valid)
            &&& ((r == Err::<TradeEvent, MarketError>(MarketError::MarketPaused)) <==> (valid
                && market.paused))
            &&& ((r == Err::<TradeEvent, MarketError>(MarketError::MathOverflow)) <==> (valid
                && !market.paused && total > u64::MAX))
            &&& ((r == Err::<TradeEvent, MarketError>(MarketError::InsufficientVaultFunds)) <==> (
            valid && !market.paused && total <= u64::MAX && sell_deposit_ok(
                *old(accounts),
                amount as int,
            ) && old(accounts).vault_usdc < total))
            &&& ((valid && !market.paused && total <= u64::MAX && sell_deposit_ok(
                *old(accounts),
                amount as int,
            ) && old(accounts).vault_usdc < total) ==> (r == Err::<TradeEvent, MarketError>(
                MarketError::InsufficientVaultFunds,
            ) && *final(accounts) == *old(accounts)))
            &&& ((r == Err::<TradeEvent, MarketError>(MarketError::TransferFailure)) <==> (valid
                && !market.paused && total <= u64::MAX && !(sell_deposit_ok(
                *old(accounts),
                amount as int,
            ) && old(accounts).vault_usdc >= total && sell_payout_ok(*old(accounts), total))
                && !(sell_deposit_ok(*old(accounts), amount as int) && old(accounts).vault_usdc
                < total)))
            &&& ((r is Ok) <==> (valid && !market.paused && total <= u64::MAX && sell_deposit_ok(
                *old(accounts),
                amount as int,
            ) && old(accounts).vault_usdc >= total && sell_payout_ok(*old(accounts), total)))
            &&& (r is Err ==> *final(accounts) == *old(accounts))
            &&& (r matches Ok(ev) ==> ({
                &&& *final(accounts) == (Sell {
                    seller_bond: (old(accounts).seller_bond - amount) as u64,
                    seller_usdc: (old(accounts).seller_usdc + total) as u64,
                    vault_bond: (old(accounts).vault_bond + amount) as u64,
                    vault_usdc: (old(accounts).vault_usdc - total) as u64,
                    ..*old(accounts)
                })
                &&& ev.market@ == market_address@
                &&& ev.trader@ == old(accounts).seller@
                &&& ev.side == TradeSide::Sell
                &&& ev.amount == amount
                &&& ev.price == market.price_per_token
            }))
        }),
{
    if !verify_fixed_market_address(&market.bond_mint, market.bump, program_id, market_address) {
        return Err(MarketError::ValidationError);
    }
    if market.paused {
        return Err(MarketError::MarketPaused);
    }
    let total_price = match market.price_per_token.checked_mul(amount) {
        Some(t) => t,
        None => {
            return Err(MarketError::MathOverflow);
        },
    };
    let mut seller_bond = accounts.seller_bond;
    let mut seller_usdc = accounts.seller_usdc;
    let mut vault_bond = accounts.vault_bond;
    let mut vault_usdc = accounts.vault_usdc;
    match transfer(&mut seller_bond, &mut vault_bond, amount) {
        Ok(u) => u,
        Err(e) => {
            return Err(e);
        },
    };
    if vault_usdc < total_price {
        return Err(MarketError::InsufficientVaultFunds);
    }
    match transfer(&mut vault_usdc, &mut seller_usdc, total_price) {
        Ok(u) => u,
        Err(e) => {
            return Err(e);
        },
    };
    accounts.seller_bond = seller_bond;
    accounts.seller_usdc = seller_usdc;
    accounts.vault_bond = vault_bond;
    accounts.vault_usdc = vault_usdc;
    Ok(TradeEvent {
        market: *market_address,
        trader: accounts.seller,
        side: TradeSide::Sell,
        amount,
        price: market.price_per_token,
    })
}

} // verus!
