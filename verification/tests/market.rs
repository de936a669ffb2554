use bond_engine::amm::{claim_coupon, initialize_amm, redeem_bond, ClaimCoupon, Redeem};
use bond_engine::create_market::CreateMarket;
use bond_engine::errors::{CustomError, MarketError};
use bond_engine::pda::{
    derive_amm_address, derive_fixed_market_address, derive_market_address,
    verify_authority_address, verify_fixed_market_address, verify_market_address,
};
use bond_engine::registry::MarketRegistry;

const PROGRAM_ID: [u8; 32] = [11u8; 32];

fn request() -> CreateMarket {
    CreateMarket {
        admin: [1u8; 32],
        quote_mint: [3u8; 32],
    }
}

#[test]
fn create_market_records_rederivable_bumps() {
    let mut registry = MarketRegistry::new();
    let name = b"Ambuja Cements".to_vec();
    let ev = registry
        .create_market(&request(), name.clone(), 2_000_000_000, 850, &PROGRAM_ID)
        .unwrap();
    assert_eq!(registry.markets.len(), 1);
    let rec = &registry.markets[0];
    assert_eq!(rec.address, ev.market);
    assert_eq!(rec.state.issuer_name, name);
    assert_eq!(rec.state.admin, [1u8; 32]);
    assert_eq!(rec.state.quote_mint, [3u8; 32]);
    assert_eq!(rec.state.bond_mint, ev.bond_mint);
    assert_eq!(rec.state.maturity_timestamp, 2_000_000_000);
    assert_eq!(rec.state.coupon_rate_bps, 850);
    assert!(!rec.state.is_matured);
    assert!(!rec.state.paused);
    // the stored bumps re-derive the recorded addresses
    assert!(verify_market_address(
        &name,
        rec.state.market_bump,
        &PROGRAM_ID,
        &rec.address
    ));
    assert!(verify_authority_address(
        &rec.address,
        rec.state.market_authority_bump,
        &PROGRAM_ID,
        &derive_authority(&rec.address)
    ));
}

fn derive_authority(market: &[u8; 32]) -> [u8; 32] {
    bond_engine::pda::derive_authority_address(market, &PROGRAM_ID)
        .unwrap()
        .0
}

#[test]
fn derived_address_is_not_an_input_echo() {
    let name = b"Issuer".to_vec();
    let (addr, bump) = derive_market_address(&name, &PROGRAM_ID).unwrap();
    // a genuine hash derivation: the address is none of the inputs
    assert_ne!(addr, PROGRAM_ID);
    assert!(verify_market_address(&name, bump, &PROGRAM_ID, &addr));
    // a tampered address fails re-derivation
    let mut forged = addr;
    forged[0] = forged[0].wrapping_add(1);
    assert!(!verify_market_address(&name, bump, &PROGRAM_ID, &forged));
    // the derivation is deterministic
    let (addr2, bump2) = derive_market_address(&name, &PROGRAM_ID).unwrap();
    assert_eq!(addr, addr2);
    assert_eq!(bump, bump2);
}

#[test]
fn fixed_market_address_rederives() {
    let bond_mint = [7u8; 32];
    let (addr, bump) = derive_fixed_market_address(&bond_mint, &PROGRAM_ID).unwrap();
    assert!(verify_fixed_market_address(&bond_mint, bump, &PROGRAM_ID, &addr));
    assert!(!verify_fixed_market_address(&[8u8; 32], bump, &PROGRAM_ID, &addr));
}

#[test]
fn duplicate_issuer_name_is_rejected_without_mutation() {
    let mut registry = MarketRegistry::new();
    let name = b"Ambuja Cements".to_vec();
    let ev = registry
        .create_market(&request(), name.clone(), 2_000_000_000, 850, &PROGRAM_ID)
        .unwrap();
    let other = CreateMarket {
        admin: [99u8; 32],
        quote_mint: [98u8; 32],
    };
    assert_eq!(
        registry.create_market(&other, name.clone(), 1, 1, &PROGRAM_ID),
        Err(CustomError::MarketAlreadyExists)
    );
    // the existing record is untouched
    assert_eq!(registry.markets.len(), 1);
    let rec = &registry.markets[0];
    assert_eq!(rec.address, ev.market);
    assert_eq!(rec.state.admin, [1u8; 32]);
    assert_eq!(rec.state.maturity_timestamp, 2_000_000_000);
    assert_eq!(rec.state.coupon_rate_bps, 850);
}

#[test]
fn over_long_issuer_name_is_rejected() {
    let mut registry = MarketRegistry::new();
    let name = vec![b'a'; 51];
    assert_eq!(
        registry.create_market(&request(), name, 0, 0, &PROGRAM_ID),
        Err(CustomError::IssuerNameTooLong)
    );
    assert_eq!(registry.markets.len(), 0);
    // a 50-byte name passes the length check but exceeds the ledger's
    // 32-byte seed bound, so the derivation itself rejects it
    let name50 = vec![b'a'; 50];
    assert_eq!(
        registry.create_market(&request(), name50, 0, 0, &PROGRAM_ID),
        Err(CustomError::DerivationFailed)
    );
    // a 32-byte name derives and is accepted
    let name32 = vec![b'a'; 32];
    assert!(registry
        .create_market(&request(), name32, 0, 0, &PROGRAM_ID)
        .is_ok());
}

#[test]
fn initialize_amm_records_market_and_bump() {
    let market = [42u8; 32];
    let amm = initialize_amm(&market, &PROGRAM_ID).unwrap();
    assert_eq!(amm.market, market);
    let (_addr, bump) = derive_amm_address(&market, &PROGRAM_ID).unwrap();
    assert_eq!(amm.amm_bump, bump);
}

#[test]
fn placeholder_flows_report_unimplemented() {
    assert_eq!(
        claim_coupon(&ClaimCoupon {}),
        Err(MarketError::Unimplemented)
    );
    assert_eq!(redeem_bond(&Redeem {}), Err(MarketError::Unimplemented));
}
