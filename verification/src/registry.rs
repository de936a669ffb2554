//! Market registry: one market per issuer name, created once.
//!
//! The ledger's allocation primitive rejects re-initialization of an
//! already-existing address; the registry models that guarantee: creating
//! a market for an issuer name that already has one fails and leaves the
//! existing record untouched.

use vstd::prelude::*;
use crate::bytes::bytes_eq;
use crate::create_market::{handler, CreateMarket, MarketCreated};
use crate::errors::CustomError;
use crate::pda::{authority_seeds, bond_mint_seeds, found_program_address, market_seeds};
use crate::state::MarketState;

verus! {

/// One registered market: its derived address and its record.
pub struct MarketRecord {
    /// The market record's derived address.
    pub address: [u8; 32],
    /// The market record itself.
    pub state: MarketState,
}

/// All markets created so far, at most one per issuer name.
pub struct MarketRegistry {
    /// The registered markets, in creation order.
    pub markets: Vec<MarketRecord>,
}

impl MarketRegistry {
    /// Whether some market is already registered under this issuer name.
    pub open spec fn contains_issuer(self, name: Seq<u8>) -> bool {
        exists|i: int|
            0 <= i < self.markets@.len() && self.markets@[i].state.issuer_name@ == name
    }

    /// An empty registry.
    pub fn new() -> (r: Self)
        ensures
            r.markets@.len() == 0,
    {
        MarketRegistry { markets: Vec::new() }
    }

    /// Position of the market registered under this issuer name, if any.
    pub fn find_market(&self, issuer_name: &Vec<u8>) -> (r: Option<usize>)
        ensures
            match r {
                Some(i) => i < self.markets@.len() && self.markets@[i as int].state.issuer_name@
                    == issuer_name@,
                None => !self.contains_issuer(issuer_name@),
            },
    {
        let mut i: usize = 0;
        while i < self.markets.len()
            invariant
                i <= self.markets@.len(),
                forall|j: int| 0 <= j < i ==> self.markets@[j].state.issuer_name@ != issuer_name@,
            decreases self.markets@.len() - i,
        {
            if bytes_eq(&self.markets[i].state.issuer_name, issuer_name) {
                return Some(i);
            }
            i += 1;
        }
        None
    }

    /// Create and register the market for one issuer.  Creation is not
    /// re-entrant: an issuer name that already has a market is rejected,
    /// and the existing record — indeed the whole registry — is untouched.
    pub fn create_market(
        &mut self,
        accounts: &CreateMarket,
        issuer_name: Vec<u8>,
        maturity_timestamp: i64,
        coupon_rate_bps: u16,
        program_id: &[u8; 32],
    ) -> (r: Result<MarketCreated, CustomError>)
        ensures
            old(self).contains_issuer(issuer_name@) ==> (r == Err::<MarketCreated, CustomError>(
                CustomError::MarketAlreadyExists,
            )),
            r is Err ==> *final(self) == *old(self),
            (r is Ok) <==> (!old(self).contains_issuer(issuer_name@)
                && issuer_name@.len() <= crate::state::MAX_ISSUER_NAME_LEN
                && crate::create_market::creation_derivable(issuer_name@, program_id@)),
            r matches Ok(ev) ==> ({
                &&& final(self).markets@.len() == old(self).markets@.len() + 1
                &&& final(self).markets@.subrange(0, old(self).markets@.len() as int) == old(
                    self,
                ).markets@
                &&& ({
                    let rec = final(self).markets@.last();
                    &&& rec.address@ == ev.market@
                    &&& rec.state.issuer_name@ == issuer_name@
                    &&& rec.state.admin@ == accounts.admin@
                    &&& rec.state.quote_mint@ == accounts.quote_mint@
                    &&& rec.state.bond_mint@ == ev.bond_mint@
                    &&& rec.state.maturity_timestamp == maturity_timestamp
                    &&& rec.state.coupon_rate_bps == coupon_rate_bps
                    &&& !rec.state.is_matured
                    &&& !rec.state.paused
                    &&& rec.state.wf()
                    &&& found_program_address(market_seeds(issuer_name@), program_id@) matches Some(
                        mp,
                    )
                    &&& rec.address@ == mp.0
                    &&& rec.state.market_bump == mp.1
                    &&& found_program_address(authority_seeds(mp.0), program_id@) matches Some(ap)
                    &&& rec.state.market_authority_bump == ap.1
                    &&& found_program_address(bond_mint_seeds(mp.0), program_id@) matches Some(bp)
                    &&& rec.state.bond_mint@ == bp.0
                })
                &&& ev.issuer_name@ == issuer_name@
                &&& final(self).contains_issuer(issuer_name@)
            }),
    {
        match self.find_market(&issuer_name) {
            Some(_) => Err(CustomError::MarketAlreadyExists),
            None => {
                match handler(accounts, issuer_name, maturity_timestamp, coupon_rate_bps, program_id) {
                    Ok((address, state, event)) => {
                        self.markets.push(MarketRecord { address, state });
                        proof {
                            assert(self.markets@.subrange(
                                0,
                                old(self).markets@.len() as int,
                            ) =~= old(self).markets@);
                            assert(self.markets@[old(self).markets@.len() as int]
                                .state.issuer_name@ == event.issuer_name@);
                        }
                        Ok(event)
                    },
                    Err(e) => Err(e),
                }
            },
        }
    }
}

} // verus!
