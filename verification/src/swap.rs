//! Constant-product exchange engine.
//!
//! Given the two vault balances `x` (quote) and `y` (bond) and an input
//! amount, the engine prices the trade under the invariant `x * y = k` with
//! integer floor division, retains a basis-point fee in the vault, and
//! realizes the trade as an all-or-nothing pair of transfers.

use vstd::prelude::*;
use vstd::arithmetic::div_mod::{
    lemma_div_by_multiple, lemma_div_is_ordered, lemma_div_pos_is_pos,
    lemma_fundamental_div_mod, lemma_hoist_over_denominator, lemma_mod_bound,
};
use crate::errors::MarketError;
use crate::state::MarketState;
use crate::transfer::transfer;

verus! {

/// Fee retained by the pool on every swap, in basis points.
pub const FEE_BPS: u64 = 30;

/// The recomputed balance of the outgoing-side vault: with `k` the product
/// of the reserves, the outgoing reserve becomes `k / (reserve_in +
/// amount_in)` under floor division.
pub open spec fn cp_new_source(reserve_in: int, reserve_out: int, amount_in: int) -> int {
    (reserve_in * reserve_out) / (reserve_in + amount_in)
}

/// Gross output of a constant-product swap, before the fee.
pub open spec fn cp_amount_out(reserve_in: int, reserve_out: int, amount_in: int) -> int {
    reserve_out - cp_new_source(reserve_in, reserve_out, amount_in)
}

/// Floored basis-point fee on a gross output.
pub open spec fn fee_of(amount_out: int, fee_bps: int) -> int {
    (amount_out * fee_bps) / 10000
}

/// Net output of a constant-product swap: the gross output less the fee,
/// which stays in the vault.
pub open spec fn net_amount_out(reserve_in: int, reserve_out: int, amount_in: int, fee_bps: int) -> int {
    cp_amount_out(reserve_in, reserve_out, amount_in)
        - fee_of(cp_amount_out(reserve_in, reserve_out, amount_in), fee_bps)
}

/// Priced outcome of one swap: gross output, retained fee, and the net
/// amount actually paid out.
#[derive(Clone, Copy, Debug, PartialEq, Eq, Structural)]
pub struct SwapQuote {
    /// Gross output under the constant-product formula.
    pub amount_out: u64,
    /// Fee retained in the outgoing vault.
    pub fee: u64,
    /// Amount the trader receives: `amount_out - fee`.
    pub final_amount_out: u64,
}

/// Price one swap against the current reserves under checked arithmetic.
/// The only failing input is an empty incoming side (`reserve_in` and
/// `amount_in` both zero), where the formula would divide by zero.
pub fn swap_quote(reserve_in: u64, reserve_out: u64, amount_in: u64, fee_bps: u64) -> (r: Result<
    SwapQuote,
    MarketError,
>)
    requires
        fee_bps <= 10000,
    ensures
        (r is Ok) <==> reserve_in + amount_in > 0,
        r is Err ==> r == Err::<SwapQuote, MarketError>(MarketError::MathOverflow),
        r matches Ok(q) ==> ({
            let out = cp_amount_out(reserve_in as int, reserve_out as int, amount_in as int);
            &&& q.amount_out == out
            &&& q.fee == fee_of(out, fee_bps as int)
            &&& q.final_amount_out == net_amount_out(
                reserve_in as int,
                reserve_out as int,
                amount_in as int,
                fee_bps as int,
            )
            &&& q.final_amount_out <= q.amount_out <= reserve_out
        }),
{
    if reserve_in == 0 && amount_in == 0 {
        return Err(MarketError::MathOverflow);
    }
    let x: u128 = reserve_in as u128;
    let y: u128 = reserve_out as u128;
    let a: u128 = amount_in as u128;
    proof {
        assert(x * y <= 0xffff_ffff_ffff_ffffu128 * 0xffff_ffff_ffff_ffffu128)
            by (nonlinear_arith)
            requires
                x <= 0xffff_ffff_ffff_ffffu128,
                y <= 0xffff_ffff_ffff_ffffu128,
        ;
    }
    let k: u128 = x * y;
    let new_x: u128 = x + a;
    proof {
        assert(k <= new_x * y) by (nonlinear_arith)
            requires
                k == x * y,
                x <= new_x,
                0 <= y,
        ;
        lemma_div_is_ordered(k as int, (new_x * y) as int, new_x as int);
        lemma_div_by_multiple(y as int, new_x as int);
        assert(new_x * y == y * new_x) by (nonlinear_arith);
        lemma_div_pos_is_pos(k as int, new_x as int);
    }
    let new_y: u128 = k / new_x;
    let amount_out: u128 = y - new_y;
    let f: u128 = fee_bps as u128;
    proof {
        assert(amount_out * f <= 0xffff_ffff_ffff_ffffu128 * 10000u128) by (nonlinear_arith)
            requires
                amount_out <= 0xffff_ffff_ffff_ffffu128,
                f <= 10000u128,
        ;
        assert(amount_out * f <= amount_out * 10000) by (nonlinear_arith)
            requires
                0 <= amount_out,
                f <= 10000u128,
        ;
        lemma_div_is_ordered((amount_out * f) as int, (amount_out * 10000) as int, 10000);
        lemma_div_by_multiple(amount_out as int, 10000);
        lemma_div_pos_is_pos((amount_out * f) as int, 10000);
    }
    let fee: u128 = (amount_out * f) / 10000;
    let final_amount_out: u128 = amount_out - fee;
    Ok(SwapQuote {
        amount_out: amount_out as u64,
        fee: fee as u64,
        final_amount_out: final_amount_out as u64,
    })
}

/// Balances that one constant-product swap reads and writes: the trader's
/// two token accounts and the market's two vaults.
#[derive(Clone, Copy, Debug, PartialEq, Eq, Structural)]
pub struct Swap {
    /// The trader's quote-token balance.
    pub user_quote: u64,
    /// The trader's bond-token balance.
    pub user_bond: u64,
    /// The quote vault's balance.
    pub quote_vault: u64,
    /// The bond vault's balance.
    pub bond_vault: u64,
}

/// Balance of the vault on the incoming side of a swap.
pub open spec fn reserve_in_of(b: Swap, swap_for_bond: bool) -> int {
    if swap_for_bond {
        b.quote_vault as int
    } else {
        b.bond_vault as int
    }
}

/// Balance of the vault on the outgoing side of a swap.
pub open spec fn reserve_out_of(b: Swap, swap_for_bond: bool) -> int {
    if swap_for_bond {
        b.bond_vault as int
    } else {
        b.quote_vault as int
    }
}

/// Whether the incoming transfer (trader to vault) can go through.
pub open spec fn pay_in_ok(b: Swap, amount_in: int, swap_for_bond: bool) -> bool {
    if swap_for_bond {
        amount_in <= b.user_quote && b.quote_vault + amount_in <= u64::MAX
    } else {
        amount_in <= b.user_bond && b.bond_vault + amount_in <= u64::MAX
    }
}

/// Whether the outgoing transfer (vault to trader) can go through; the
/// vault side is always funded, so only the trader's receiving balance can
/// overflow.
pub open spec fn pay_out_ok(b: Swap, net: int, swap_for_bond: bool) -> bool {
    if swap_for_bond {
        b.user_bond + net <= u64::MAX
    } else {
        b.user_quote + net <= u64::MAX
    }
}

/// Execute one constant-product swap: price the trade against the current
/// reserves, then realize it as an all-or-nothing pair of transfers, the
/// incoming one signed by the trader, the outgoing one by the market's
/// vault authority.  Every failure leaves every balance unchanged.
pub fn handle_swap(
    market: &MarketState,
    accounts: &mut Swap,
    amount_in: u64,
    swap_for_bond: bool,
) -> (r: Result<SwapQuote, MarketError>)
    ensures
        ({
            let rin = reserve_in_of(*old(accounts), swap_for_bond);
            let rout = reserve_out_of(*old(accounts), swap_for_bond);
            let out = cp_amount_out(rin, rout, amount_in as int);
            let net = net_amount_out(rin, rout, amount_in as int, FEE_BPS as int);
            &&& ((r == Err::<SwapQuote, MarketError>(MarketError::MarketPaused)) <==> market.paused)
            &&& ((r == Err::<SwapQuote, MarketError>(MarketError::MathOverflow)) <==> (!market.paused
                && rin + amount_in == 0))
            &&& ((r == Err::<SwapQuote, MarketError>(MarketError::TransferFailure)) <==> (
            !market.paused && rin + amount_in > 0 && !(pay_in_ok(
                *old(accounts),
                amount_in as int,
                swap_for_bond,
            ) && pay_out_ok(*old(accounts), net, swap_for_bond))))
            &&& ((r is Ok) <==> (!market.paused && rin + amount_in > 0 && pay_in_ok(
                *old(accounts),
                amount_in as int,
                swap_for_bond,
            ) && pay_out_ok(*old(accounts), net, swap_for_bond)))
            &&& (r is Err ==> *final(accounts) == *old(accounts))
            &&& (r matches Ok(q) ==> ({
                &&& q.amount_out == out
                &&& q.fee == fee_of(out, FEE_BPS as int)
                &&& q.final_amount_out == net
                &&& reserve_in_of(*final(accounts), swap_for_bond) == rin + amount_in
                &&& reserve_out_of(*final(accounts), swap_for_bond) == rout - net
                &&& (swap_for_bond ==> *final(accounts) == (Swap {
                    user_quote: (old(accounts).user_quote - amount_in) as u64,
                    user_bond: (old(accounts).user_bond + net) as u64,
                    quote_vault: (old(accounts).quote_vault + amount_in) as u64,
                    bond_vault: (old(accounts).bond_vault - net) as u64,
                }))
                &&& (!swap_for_bond ==> *final(accounts) == (Swap {
                    user_quote: (old(accounts).user_quote + net) as u64,
                    user_bond: (old(accounts).user_bond - amount_in) as u64,
                    quote_vault: (old(accounts).quote_vault - net) as u64,
                    bond_vault: (old(accounts).bond_vault + amount_in) as u64,
                }))
            }))
        }),
{
    if market.paused {
        return Err(MarketError::MarketPaused);
    }
    let rin = if swap_for_bond {
        accounts.quote_vault
    } else {
        accounts.bond_vault
    };
    let rout = if swap_for_bond {
        accounts.bond_vault
    } else {
        accounts.quote_vault
    };
    let q = match swap_quote(rin, rout, amount_in, FEE_BPS) {
        Ok(q) => q,
        Err(e) => {
            return Err(e);
        },
    };
    let mut user_in = if swap_for_bond {
        accounts.user_quote
    } else {
        accounts.user_bond
    };
    let mut vault_in = rin;
    let mut vault_out = rout;
    let mut user_out = if swap_for_bond {
        accounts.user_bond
    } else {
        accounts.user_quote
    };
    match transfer(&mut user_in, &mut vault_in, amount_in) {
        Ok(u) => u,
        Err(e) => {
            return Err(e);
        },
    };
    match transfer(&mut vault_out, &mut user_out, q.final_amount_out) {
        Ok(u) => u,
        Err(e) => {
            return Err(e);
        },
    };
    if swap_for_bond {
        accounts.user_quote = user_in;
        accounts.quote_vault = vault_in;
        accounts.bond_vault = vault_out;
        accounts.user_bond = user_out;
    } else {
        accounts.user_bond = user_in;
        accounts.bond_vault = vault_in;
        accounts.quote_vault = vault_out;
        accounts.user_quote = user_out;
    }
    Ok(q)
}


/// Law: a swap never grows the pool invariant.  With `new_x = x +
/// amount_in` the incoming reserve and `new_y` the recomputed outgoing
/// reserve, floor division gives `new_x * new_y <= x * y`; the retained
/// fee is only ever added back on top of `new_y`.
pub proof fn lemma_pool_product_never_grows(x: int, y: int, amount_in: int)
    requires
        x > 0,
        y > 0,
        amount_in >= 0,
    ensures
        (x + amount_in) * cp_new_source(x, y, amount_in) <= x * y,
{
    let d = x + amount_in;
    assert(x * y >= 0) by (nonlinear_arith)
        requires
            x > 0,
            y > 0,
    ;
    lemma_fundamental_div_mod(x * y, d);
    lemma_mod_bound(x * y, d);
}

/// Law: for every input amount, the gross output never exceeds the
/// outgoing reserve, and the floored basis-point fee never exceeds the
/// gross output: `0 <= net <= out <= reserve_out`.
pub proof fn lemma_swap_output_bounded(x: int, y: int, amount_in: int, fee_bps: int)
    requires
        x >= 0,
        y >= 0,
        amount_in >= 0,
        x + amount_in > 0,
        0 <= fee_bps <= 10000,
    ensures
        0 <= cp_amount_out(x, y, amount_in) <= y,
        0 <= fee_of(cp_amount_out(x, y, amount_in), fee_bps) <= cp_amount_out(x, y, amount_in),
        0 <= net_amount_out(x, y, amount_in, fee_bps) <= cp_amount_out(x, y, amount_in),
{
    let d = x + amount_in;
    let k = x * y;
    assert(k >= 0) by (nonlinear_arith)
        requires
            x >= 0,
            y >= 0,
            k == x * y,
    ;
    assert(k <= d * y) by (nonlinear_arith)
        requires
            x <= d,
            y >= 0,
            k == x * y,
    ;
    lemma_div_is_ordered(k, d * y, d);
    lemma_div_by_multiple(y, d);
    assert(d * y == y * d) by (nonlinear_arith);
    lemma_div_pos_is_pos(k, d);
    let out = cp_amount_out(x, y, amount_in);
    assert(out * fee_bps <= out * 10000) by (nonlinear_arith)
        requires
            out >= 0,
            fee_bps <= 10000,
    ;
    assert(out * fee_bps >= 0) by (nonlinear_arith)
        requires
            out >= 0,
            fee_bps >= 0,
    ;
    lemma_div_is_ordered(out * fee_bps, out * 10000, 10000);
    lemma_div_by_multiple(out, 10000);
    lemma_div_pos_is_pos(out * fee_bps, 10000);
}

/// Law (round trip): swapping `amount_in` of quote for bond and
/// immediately swapping the received bond back yields strictly less quote
/// than was paid in, whenever the floored fee is at least one unit on the
/// first leg's gross output and on `amount_in` itself.  (When a fee floors
/// to zero, the floor division of the pricing formula itself can round in
/// the trader's favour by a unit, so no decrease is owed there.)
pub proof fn lemma_swap_round_trip_fee_decreases(x: int, y: int, amount_in: int, fee_bps: int)
    requires
        x > 0,
        y > 0,
        amount_in > 0,
        0 < fee_bps <= 10000,
        cp_amount_out(x, y, amount_in) * fee_bps >= 10000,
        amount_in * fee_bps >= 10000,
    ensures
        ({
            let paid1 = net_amount_out(x, y, amount_in, fee_bps);
            net_amount_out(y - paid1, x + amount_in, paid1, fee_bps) < amount_in
        }),
{
    let d = x + amount_in;
    let q1 = cp_new_source(x, y, amount_in);
    let out1 = cp_amount_out(x, y, amount_in);
    let fee1 = fee_of(out1, fee_bps);
    let paid1 = net_amount_out(x, y, amount_in, fee_bps);
    let y1 = y - paid1;
    let q2 = cp_new_source(y1, d, paid1);
    let out2 = cp_amount_out(y1, d, paid1);
    let fee2 = fee_of(out2, fee_bps);
    let net2 = net_amount_out(y1, d, paid1, fee_bps);
    let r1 = (x * y) % d;
    let slack = fee1 * d - r1;

    lemma_swap_output_bounded(x, y, amount_in, fee_bps);
    lemma_div_is_ordered(10000, out1 * fee_bps, 10000);
    assert(fee1 >= 1);

    lemma_fundamental_div_mod(x * y, d);
    lemma_mod_bound(x * y, d);
    assert(y1 == q1 + fee1);
    assert((q1 + fee1) * d == q1 * d + fee1 * d) by (nonlinear_arith);
    assert(q1 * d == d * q1) by (nonlinear_arith);
    assert(fee1 * d >= d) by (nonlinear_arith)
        requires
            fee1 >= 1,
            d > 0,
    ;
    assert(y1 * d == x * y + slack);
    assert(slack >= 1);

    lemma_hoist_over_denominator(slack, x, y as nat);
    assert((y1 + paid1) == y);
    assert(q2 == (x * y + slack) / y);
    assert(q2 == x + slack / y);
    lemma_div_pos_is_pos(slack, y);
    assert(out2 == amount_in - slack / y);

    lemma_swap_output_bounded(y1, d, paid1, fee_bps);
    if slack / y >= 1 {
        assert(net2 <= out2);
        assert(net2 < amount_in);
    } else {
        assert(out2 == amount_in);
        lemma_div_is_ordered(10000, amount_in * fee_bps, 10000);
        assert(fee2 >= 1);
        assert(net2 < amount_in);
    }
}

/// Law (round trip, degenerate case): with no fee and an input under which
/// the incoming reserve divides the pool product exactly, the round trip
/// returns exactly `amount_in` — no rounding is left anywhere.
pub proof fn lemma_swap_round_trip_exact(x: int, y: int, amount_in: int)
    requires
        x > 0,
        y > 0,
        amount_in > 0,
        (x * y) % (x + amount_in) == 0,
    ensures
        ({
            let paid1 = net_amount_out(x, y, amount_in, 0);
            net_amount_out(y - paid1, x + amount_in, paid1, 0) == amount_in
        }),
{
    let d = x + amount_in;
    let q1 = cp_new_source(x, y, amount_in);
    let out1 = cp_amount_out(x, y, amount_in);
    let paid1 = net_amount_out(x, y, amount_in, 0);
    let y1 = y - paid1;
    let q2 = cp_new_source(y1, d, paid1);

    lemma_swap_output_bounded(x, y, amount_in, 0);
    assert(out1 * 0 == 0);
    assert(fee_of(out1, 0) == 0);
    assert(paid1 == out1);

    lemma_fundamental_div_mod(x * y, d);
    assert(x * y == d * q1);
    assert(y1 == q1);
    assert(q1 * d == d * q1) by (nonlinear_arith);
    assert((y1 + paid1) == y);
    assert(q2 == (x * y) / y);
    assert(x * y == y * x) by (nonlinear_arith);
    lemma_div_by_multiple(x, y);
    assert(q2 == x);
    let out2 = cp_amount_out(y1, d, paid1);
    assert(out2 == amount_in);
    assert(out2 * 0 == 0);
    assert(fee_of(out2, 0) == 0);
}
} // verus!
