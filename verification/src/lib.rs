//! Custody and exchange engine for tokenized fixed-income instruments
//! ("bonds") on a sequentially committed ledger.
//!
//! A market pairs one bond token with one quote token for a single issuer.
//! Two vaults custody the pair under a deterministically derived authority;
//! holders exchange between them either through a constant-product automated
//! market or through a fixed-price order book of one.  All exchange
//! quantities are computed under checked integer arithmetic, and every
//! operation either commits as a whole or leaves every balance unchanged.

pub mod amm;
pub mod buy;
pub mod bytes;
pub mod create_market;
pub mod errors;
pub mod pda;
pub mod registry;
pub mod sell;
pub mod state;
pub mod swap;
pub mod transfer;

use vstd::prelude::*;

verus! {

} // verus!
