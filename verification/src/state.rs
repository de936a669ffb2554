//! Persistent records of the engine: market registries for both exchange
//! variants and the automated-market bookkeeping records.
//!
//! Token identities and derived addresses are 32-byte values.  Vault
//! balances are not stored here: they live in the two vault token accounts,
//! which the engine reads and mutates only through the transfer primitive.

use vstd::prelude::*;

verus! {

/// Longest issuer name a market record accepts, in bytes.
pub const MAX_ISSUER_NAME_LEN: usize = 50;

/// State of one issuer's market: metadata, mint identities and the
/// derivation bumps that canonicalize its own address and its vault
/// authority.  Created once; afterwards only the administrative lifecycle
/// flags ever change.
pub struct MarketState {
    /// Identity permitted to make administrative changes.
    pub admin: [u8; 32],
    /// Identity of the bond token's mint.
    pub bond_mint: [u8; 32],
    /// Identity of the quote token's mint.
    pub quote_mint: [u8; 32],
    /// Issuer of the bond, immutable after creation; part of the market's
    /// deterministic address.
    pub issuer_name: Vec<u8>,
    /// Instant after which redemption becomes valid.
    pub maturity_timestamp: i64,
    /// Annual interest rate in basis points; informational to this engine.
    pub coupon_rate_bps: u16,
    /// Bump canonicalizing the derivation of the market's own address.
    pub market_bump: u8,
    /// Bump canonicalizing the derivation of the vault-authority address.
    pub market_authority_bump: u8,
    /// Whether the bond has matured.
    pub is_matured: bool,
    /// Whether trading is suspended.
    pub paused: bool,
}

impl MarketState {
    /// A market record is well formed when its issuer name respects the
    /// configured bound.
    pub open spec fn wf(self) -> bool {
        self.issuer_name@.len() <= MAX_ISSUER_NAME_LEN
    }

    /// Suspend or resume trading; every other field is untouched.
    pub fn set_paused(&mut self, paused: bool)
        ensures
            *final(self) == (MarketState { paused, ..*old(self) }),
    {
        self.paused = paused;
    }
}

/// Bookkeeping record of a market's constant-product exchange.
pub struct AmmState {
    /// The associated market record's address.
    pub market: [u8; 32],
    /// Bump canonicalizing the derivation of this record's address.
    pub amm_bump: u8,
}

/// Bookkeeping record of a claimed coupon period; consumed by the
/// coupon-claim flow, a declared future extension point.
pub struct CouponClaimState {
    /// The period for which the coupon was claimed.
    pub claim_period: u8,
    /// Bump canonicalizing the derivation of this record's address.
    pub bump: u8,
}

/// State of one fixed-price market: mint and vault identities and the
/// configured per-unit price in the quote token's smallest unit.
pub struct Market {
    /// Identity of the bond token's mint; part of this market's
    /// deterministic address.
    pub bond_mint: [u8; 32],
    /// Identity of the quote token's mint.
    pub usdc_mint: [u8; 32],
    /// Quote units owed per bond unit.
    pub price_per_token: u64,
    /// Address of the vault custodying bond tokens.
    pub vault_bond: [u8; 32],
    /// Address of the vault custodying quote tokens.
    pub vault_usdc: [u8; 32],
    /// Identity permitted to make administrative changes.
    pub admin: [u8; 32],
    /// Whether trading is suspended.
    pub paused: bool,
    /// Bump canonicalizing the derivation of this market's address.
    pub bump: u8,
}

impl Market {
    /// Suspend or resume trading; every other field is untouched.
    pub fn set_paused(&mut self, paused: bool)
        ensures
            *final(self) == (Market { paused, ..*old(self) }),
    {
        self.paused = paused;
    }
}

} // verus!
