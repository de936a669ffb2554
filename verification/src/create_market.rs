//! Market creation.
//!
//! Creation validates the issuer name, derives the market's own address,
//! its vault authority and its bond mint deterministically from immutable
//! data, records the derivation bumps — the only legitimate proof that a
//! later-presented address is genuine — and reports the new market for
//! off-chain observers.

use vstd::prelude::*;
use crate::errors::CustomError;
use crate::pda::{
    authority_seeds, bond_mint_seeds, derive_authority_address, derive_bond_mint_address,
    derive_market_address, found_program_address, market_seeds,
};
use crate::state::{MarketState, MAX_ISSUER_NAME_LEN};

verus! {

/// Plain-value request for market creation: the identities that are not
/// derived from the market itself.
#[derive(Clone, Copy, Debug, PartialEq, Eq)]
pub struct CreateMarket {
    /// Identity permitted to administer the new market.
    pub admin: [u8; 32],
    /// Identity of the quote token's mint.
    pub quote_mint: [u8; 32],
}

/// Record of one market creation, published for off-chain observers.
#[derive(Debug, PartialEq, Eq)]
pub struct MarketCreated {
    /// The new market record's address.
    pub market: [u8; 32],
    /// The derived bond mint's address.
    pub bond_mint: [u8; 32],
    /// The issuer the market was created for.
    pub issuer_name: Vec<u8>,
}

/// Whether every derivation that market creation needs succeeds for this
/// issuer name.
pub open spec fn creation_derivable(issuer_name: Seq<u8>, program_id: Seq<u8>) -> bool {
    &&& found_program_address(market_seeds(issuer_name), program_id) matches Some(mp)
    &&& found_program_address(authority_seeds(mp.0), program_id) is Some
    &&& found_program_address(bond_mint_seeds(mp.0), program_id) is Some
}

/// Create the market record for one issuer: reject an over-long issuer
/// name, derive the market's address, vault authority and bond mint, and
/// fix the derivation bumps forever.
pub fn handler(
    accounts: &CreateMarket,
    issuer_name: Vec<u8>,
    maturity_timestamp: i64,
    coupon_rate_bps: u16,
    program_id: &[u8; 32],
) -> (r: Result<([u8; 32], MarketState, MarketCreated), CustomError>)
    ensures
        ((r == Err::<([u8; 32], MarketState, MarketCreated), CustomError>(
            CustomError::IssuerNameTooLong,
        )) <==> issuer_name@.len() > MAX_ISSUER_NAME_LEN),
        ((r == Err::<([u8; 32], MarketState, MarketCreated), CustomError>(
            CustomError::DerivationFailed,
        )) <==> (issuer_name@.len() <= MAX_ISSUER_NAME_LEN && !creation_derivable(
            issuer_name@,
            program_id@,
        ))),
        (r is Ok) <==> (issuer_name@.len() <= MAX_ISSUER_NAME_LEN && creation_derivable(
            issuer_name@,
            program_id@,
        )),
        r matches Ok(t) ==> ({
            &&& found_program_address(market_seeds(issuer_name@), program_id@) matches Some(mp)
            &&& t.0@ == mp.0
            &&& t.1.market_bump == mp.1
            &&& found_program_address(authority_seeds(mp.0), program_id@) matches Some(ap)
            &&& t.1.market_authority_bump == ap.1
            &&& found_program_address(bond_mint_seeds(mp.0), program_id@) matches Some(bp)
            &&& t.1.bond_mint@ == bp.0
            &&& t.1.admin@ == accounts.admin@
            &&& t.1.quote_mint@ == accounts.quote_mint@
            &&& t.1.issuer_name@ == issuer_name@
            &&& t.1.maturity_timestamp == maturity_timestamp
            &&& t.1.coupon_rate_bps == coupon_rate_bps
            &&& !t.1.is_matured
            &&& !t.1.paused
            &&& t.1.wf()
            &&& t.2.market@ == t.0@
            &&& t.2.bond_mint@ == t.1.bond_mint@
            &&& t.2.issuer_name@ == issuer_name@
        }),
{
    if issuer_name.len() > MAX_ISSUER_NAME_LEN {
        return Err(CustomError::IssuerNameTooLong);
    }
    let (market_address, market_bump) = match derive_market_address(&issuer_name, program_id) {
        Some(p) => p,
        None => {
            return Err(CustomError::DerivationFailed);
        },
    };
    let (_authority, market_authority_bump) = match derive_authority_address(
        &market_address,
        program_id,
    ) {
        Some(p) => p,
        None => {
            return Err(CustomError::DerivationFailed);
        },
    };
    let (bond_mint, _bond_mint_bump) = match derive_bond_mint_address(&market_address, program_id) {
        Some(p) => p,
        None => {
            return Err(CustomError::DerivationFailed);
        },
    };
    let event = MarketCreated {
        market: market_address,
        bond_mint,
        issuer_name: crate::bytes::copy_bytes(&issuer_name),
    };
    let state = MarketState {
        admin: accounts.admin,
        bond_mint,
        quote_mint: accounts.quote_mint,
        issuer_name,
        maturity_timestamp,
        coupon_rate_bps,
        market_bump,
        market_authority_bump,
        is_matured: false,
        paused: false,
    };
    Ok((market_address, state, event))
}

} // verus!
