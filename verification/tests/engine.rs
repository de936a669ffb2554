use bond_engine::amm::swap as program_swap;
use bond_engine::create_market::CreateMarket;
use bond_engine::errors::MarketError;
use bond_engine::pda::derive_authority_address;
use bond_engine::registry::MarketRegistry;
use bond_engine::state::MarketState;
use bond_engine::swap::{handle_swap, swap_quote, Swap, FEE_BPS};

const PROGRAM_ID: [u8; 32] = [11u8; 32];

fn test_market(paused: bool) -> MarketState {
    MarketState {
        admin: [1u8; 32],
        bond_mint: [2u8; 32],
        quote_mint: [3u8; 32],
        issuer_name: b"Ambuja Cements".to_vec(),
        maturity_timestamp: 2_000_000_000,
        coupon_rate_bps: 850,
        market_bump: 254,
        market_authority_bump: 253,
        is_matured: false,
        paused,
    }
}

#[test]
fn quote_concrete_scenario() {
    // vaults at quote = 1_000_000 / bond = 500_000, fee 30 bps, input 10_000:
    // k = 500_000_000_000; new quote reserve 1_010_000; new bond reserve
    // 495_049; gross out 4_951; fee 14; net out 4_937.
    let q = swap_quote(1_000_000, 500_000, 10_000, FEE_BPS).unwrap();
    assert_eq!(q.amount_out, 4_951);
    assert_eq!(q.fee, 14);
    assert_eq!(q.final_amount_out, 4_937);
}

#[test]
fn quote_zero_input_is_not_an_error() {
    let q = swap_quote(1_000_000, 500_000, 0, FEE_BPS).unwrap();
    assert_eq!(q.amount_out, 0);
    assert_eq!(q.fee, 0);
    assert_eq!(q.final_amount_out, 0);
}

#[test]
fn quote_empty_incoming_side_divides_by_zero() {
    assert_eq!(
        swap_quote(0, 500_000, 0, FEE_BPS),
        Err(MarketError::MathOverflow)
    );
}

#[test]
fn swap_for_bond_moves_all_four_balances() {
    let market = test_market(false);
    let mut accounts = Swap {
        user_quote: 50_000,
        user_bond: 0,
        quote_vault: 1_000_000,
        bond_vault: 500_000,
    };
    let q = handle_swap(&market, &mut accounts, 10_000, true).unwrap();
    assert_eq!(q.final_amount_out, 4_937);
    assert_eq!(accounts.user_quote, 40_000);
    assert_eq!(accounts.quote_vault, 1_010_000);
    assert_eq!(accounts.bond_vault, 495_063);
    assert_eq!(accounts.user_bond, 4_937);
}

#[test]
fn swap_for_quote_moves_all_four_balances() {
    let market = test_market(false);
    let mut accounts = Swap {
        user_quote: 0,
        user_bond: 100,
        quote_vault: 1_000,
        bond_vault: 1_000,
    };
    // k = 1_000_000; new bond reserve 1_100; new quote reserve 909;
    // gross out 91; fee floors to 0; net out 91.
    let q = handle_swap(&market, &mut accounts, 100, false).unwrap();
    assert_eq!(q.amount_out, 91);
    assert_eq!(q.fee, 0);
    assert_eq!(q.final_amount_out, 91);
    assert_eq!(accounts.user_bond, 0);
    assert_eq!(accounts.bond_vault, 1_100);
    assert_eq!(accounts.quote_vault, 909);
    assert_eq!(accounts.user_quote, 91);
}

#[test]
fn swap_on_paused_market_changes_nothing() {
    let market = test_market(true);
    let before = Swap {
        user_quote: 50_000,
        user_bond: 7,
        quote_vault: 1_000_000,
        bond_vault: 500_000,
    };
    let mut accounts = before;
    assert_eq!(
        handle_swap(&market, &mut accounts, 10_000, true),
        Err(MarketError::MarketPaused)
    );
    assert_eq!(accounts, before);
}

#[test]
fn swap_with_underfunded_trader_changes_nothing() {
    let market = test_market(false);
    let before = Swap {
        user_quote: 9_999,
        user_bond: 0,
        quote_vault: 1_000_000,
        bond_vault: 500_000,
    };
    let mut accounts = before;
    assert_eq!(
        handle_swap(&market, &mut accounts, 10_000, true),
        Err(MarketError::TransferFailure)
    );
    assert_eq!(accounts, before);
}

#[test]
fn round_trip_with_fee_returns_strictly_less() {
    let market = test_market(false);
    let mut accounts = Swap {
        user_quote: 10_000,
        user_bond: 0,
        quote_vault: 1_000_000,
        bond_vault: 500_000,
    };
    let first = handle_swap(&market, &mut accounts, 10_000, true).unwrap();
    assert_eq!(first.final_amount_out, 4_937);
    let second = handle_swap(&market, &mut accounts, first.final_amount_out, false).unwrap();
    assert_eq!(second.final_amount_out, 9_944);
    assert!(second.final_amount_out < 10_000);
    assert_eq!(accounts.user_quote, 9_944);
    assert_eq!(accounts.user_bond, 0);
}

#[test]
fn round_trip_without_fee_on_even_division_returns_exactly() {
    // 10 * 10 is divisible by 10 + 10, so no floor rounding is left
    // anywhere and the no-fee round trip gives the input back exactly.
    let first = swap_quote(10, 10, 10, 0).unwrap();
    assert_eq!(first.final_amount_out, 5);
    let second = swap_quote(10 - 5, 10 + 10, 5, 0).unwrap();
    assert_eq!(second.final_amount_out, 10);
}

#[test]
fn pool_product_never_grows_on_concrete_swap() {
    let q = swap_quote(1_000_000, 500_000, 10_000, FEE_BPS).unwrap();
    let new_x: u128 = 1_000_000 + 10_000;
    let new_y: u128 = 500_000 - q.amount_out as u128;
    assert!(new_x * new_y <= 1_000_000u128 * 500_000u128);
}

#[test]
fn swap_through_program_surface_validates_addresses() {
    let mut registry = MarketRegistry::new();
    let request = CreateMarket {
        admin: [1u8; 32],
        quote_mint: [3u8; 32],
    };
    let ev = registry
        .create_market(&request, b"Issuer".to_vec(), 0, 0, &PROGRAM_ID)
        .unwrap();
    let state = &registry.markets[0].state;
    let authority = derive_authority_address(&ev.market, &PROGRAM_ID).unwrap().0;
    let mut balances = Swap {
        user_quote: 50_000,
        user_bond: 0,
        quote_vault: 1_000_000,
        bond_vault: 500_000,
    };
    let q = program_swap(
        state,
        &ev.market,
        &authority,
        &PROGRAM_ID,
        &mut balances,
        10_000,
        true,
    )
    .unwrap();
    assert_eq!(q.final_amount_out, 4_937);
    assert_eq!(balances.user_bond, 4_937);
    // a forged authority is rejected before any balance moves
    let before = balances;
    let mut forged = authority;
    forged[0] = forged[0].wrapping_add(1);
    assert_eq!(
        program_swap(
            state,
            &ev.market,
            &forged,
            &PROGRAM_ID,
            &mut balances,
            10_000,
            true,
        ),
        Err(MarketError::ValidationError)
    );
    assert_eq!(balances, before);
}

#[test]
fn set_paused_gates_swaps() {
    let mut market = test_market(false);
    market.set_paused(true);
    let mut accounts = Swap {
        user_quote: 50_000,
        user_bond: 0,
        quote_vault: 1_000_000,
        bond_vault: 500_000,
    };
    assert_eq!(
        handle_swap(&market, &mut accounts, 10_000, true),
        Err(MarketError::MarketPaused)
    );
    market.set_paused(false);
    assert!(handle_swap(&market, &mut accounts, 10_000, true).is_ok());
}
