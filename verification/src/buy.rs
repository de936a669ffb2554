//! Fixed-price buy execution.
//!
//! A buy pays `price_per_token * amount` quote tokens into the quote vault
//! and receives `amount` bond tokens from the bond vault, as an
//! all-or-nothing pair of transfers, and reports the trade for off-chain
//! observers.

use vstd::prelude::*;
use crate::errors::MarketError;
use crate::pda::{derives_to, fixed_market_seeds, verify_fixed_market_address};
use crate::state::Market;
use crate::transfer::transfer;

verus! {

/// Side of an executed fixed-price trade.
#[derive(Clone, Copy, Debug, PartialEq, Eq, Structural)]
pub enum TradeSide {
    /// The trader bought bond tokens for quote tokens.
    Buy,
    /// The trader sold bond tokens for quote tokens.
    Sell,
}

/// Record of one executed trade, published for off-chain observers;
/// constructed and emitted, never stored.
#[derive(Clone, Copy, Debug, PartialEq, Eq)]
pub struct TradeEvent {
    /// The market the trade executed on.
    pub market: [u8; 32],
    /// The trader's identity.
    pub trader: [u8; 32],
    /// Whether the trader bought or sold bonds.
    pub side: TradeSide,
    /// Bond tokens moved.
    pub amount: u64,
    /// The market's per-unit price at execution time.
    pub price: u64,
}

/// Balances and identity that one fixed-price buy reads and writes.
#[derive(Clone, Copy, Debug, PartialEq, Eq)]
pub struct Buy {
    /// The buyer's identity, for the trade record.
    pub buyer: [u8; 32],
    /// The buyer's quote-token balance.
    pub buyer_usdc: u64,
    /// The buyer's bond-token balance.
    pub buyer_bond: u64,
    /// The quote vault's balance.
    pub vault_usdc: u64,
    /// The bond vault's balance.
    pub vault_bond: u64,
}

/// Whether the buyer's payment (buyer to quote vault) can go through.
pub open spec fn buy_pay_ok(b: Buy, total_price: int) -> bool {
    total_price <= b.buyer_usdc && b.vault_usdc + total_price <= u64::MAX
}

/// Whether the bond payout (bond vault to buyer) can go through.
pub open spec fn buy_receive_ok(b: Buy, amount: int) -> bool {
    amount <= b.vault_bond && b.buyer_bond + amount <= u64::MAX
}

/// Execute one fixed-price buy of `amount` bond tokens at the market's
/// configured price.  The total consideration is the checked product
/// `price_per_token * amount`; every failure leaves every balance
/// unchanged.
pub fn handler(
    market: &Market,
    market_address: &[u8; 32],
    program_id: &[u8; 32],
    accounts: &mut Buy,
    amount: u64,
) -> (r: Result<TradeEvent, MarketError>)
    ensures
        ({
            let valid = derives_to(
                fixed_market_seeds(market.bond_mint@),
                market.bump,
                program_id@,
                market_address@,
            );
            let total = market.price_per_token * amount;
            &&& ((r == Err::<TradeEvent, MarketError>(MarketError::ValidationError)) <==> !valid)
            &&& ((r == Err::<TradeEvent, MarketError>(MarketError::MarketPaused)) <==> (valid
                && market.paused))
            &&& ((r == Err::<TradeEvent, MarketError>(MarketError::MathOverflow)) <==> (valid
                && !market.paused && total > u64::MAX))
            &&& ((r == Err::<TradeEvent, MarketError>(MarketError::TransferFailure)) <==> (valid
                && !market.paused && total <= u64::MAX && !(buy_pay_ok(*old(accounts), total)
                && buy_receive_ok(*old(accounts), amount as int))))
            &&& ((r is Ok) <==> (valid && !market.paused && total <= u64::MAX && buy_pay_ok(
                *old(accounts),
                total,
            ) && buy_receive_ok(*old(accounts), amount as int)))
            &&& (r is Err ==> *final(accounts) == *old(accounts))
            &&& (r matches Ok(ev) ==> ({
                &&& *final(accounts) == (Buy {
                    buyer_usdc: (old(accounts).buyer_usdc - total) as u64,
                    buyer_bond: (old(accounts).buyer_bond + amount) as u64,
                    vault_usdc: (old(accounts).vault_usdc + total) as u64,
                    vault_bond: (old(accounts).vault_bond - amount) as u64,
                    ..*old(accounts)
                })
                &&& ev.market@ == market_address@
                &&& ev.trader@ == old(accounts).buyer@
                &&& ev.side == TradeSide::Buy
                &&& ev.amount == amount
                &&& ev.price == market.price_per_token
            }))
        }),
{
    if !verify_fixed_market_address(&market.bond_mint, market.bump, program_id, market_address) {
        return Err(MarketError::ValidationError);
    }
    if market.paused {
        return Err(MarketError::MarketPaused);
    }
    let total_price = match market.price_per_token.checked_mul(amount) {
        Some(t) => t,
        None => {
            return Err(MarketError::MathOverflow);
        },
    };
    let mut buyer_usdc = accounts.buyer_usdc;
    let mut buyer_bond = accounts.buyer_bond;
    let mut vault_usdc = accounts.vault_usdc;
    let mut vault_bond = accounts.vault_bond;
    match transfer(&mut buyer_usdc, &mut vault_usdc, total_price) {
        Ok(u) => u,
        Err(e) => {
            return Err(e);
        },
    };
    match transfer(&mut vault_bond, &mut buyer_bond, amount) {
        Ok(u) => u,
        Err(e) => {
            return Err(e);
        },
    };
    accounts.buyer_usdc = buyer_usdc;
    accounts.buyer_bond = buyer_bond;
    accounts.vault_usdc = vault_usdc;
    accounts.vault_bond = vault_bond;
    Ok(TradeEvent {
        market: *market_address,
        trader: accounts.buyer,
        side: TradeSide::Buy,
        amount,
        price: market.price_per_token,
    })
}

} // verus!
