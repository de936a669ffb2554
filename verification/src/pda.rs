//! Deterministic derivation of the market's own address and of its vault
//! authority.
//!
//! A derived authority is a signing identity with no private key: it is a
//! function of public seed bytes plus the owning program's id.  The ledger
//! computes it with a cryptographic hash, which this module does not restate;
//! the derivation is named abstractly and every later access re-derives the
//! address from stored immutable fields and compares, so a caller-supplied
//! address is never trusted blindly.

use vstd::prelude::*;
use crate::bytes::{bytes32_eq, copy_bytes, copy_bytes32};
use anchor_lang::prelude::Pubkey;

verus! {

/// Abstract result of the ledger's program-address derivation for a full
/// seed list (bump included as the final one-byte seed): `None` when the
/// seeds are rejected, otherwise the 32-byte derived address.
pub uninterp spec fn program_address(seeds: Seq<Seq<u8>>, program_id: Seq<u8>) -> Option<Seq<u8>>;

/// Abstract result of the ledger's bump search: the first bump, scanning
/// downward from 255, whose extended seed list derives an address, paired
/// with that address; `None` when no bump works.
pub uninterp spec fn found_program_address(seeds: Seq<Seq<u8>>, program_id: Seq<u8>) -> Option<(Seq<u8>, u8)>;

/// Relies on anchor_lang's `Pubkey::create_program_address`: the result is a
/// function of the seeds and the program id alone, and it fails exactly when
/// a seed is over-long, there are too many seeds, or the derived point lies
/// on the curve; none of which this crate restates.
#[verifier::external_body]
fn create_program_address(seeds: &Vec<Vec<u8>>, program_id: &[u8; 32]) -> (r: Option<[u8; 32]>)
    ensures
        match r {
            Some(a) => program_address(seeds.deep_view(), program_id@) == Some(a@),
            None => program_address(seeds.deep_view(), program_id@) is None,
        },
{
    let refs: Vec<&[u8]> = seeds.iter().map(|s| s.as_slice()).collect();
    let pk = Pubkey::new_from_array(*program_id);
    match Pubkey::create_program_address(&refs, &pk) {
        Ok(a) => Some(a.to_bytes()),
        Err(_) => None,
    }
}

/// Relies on anchor_lang's `Pubkey::try_find_program_address`: it scans bump
/// bytes downward from 255 and returns the first derivation that
/// `create_program_address` accepts, so the outcome is again a function of
/// the seeds and the program id alone, and the returned address re-derives
/// through `create_program_address` with the bump appended as a final
/// one-byte seed.
#[verifier::external_body]
fn find_program_address(seeds: &Vec<Vec<u8>>, program_id: &[u8; 32]) -> (r: Option<([u8; 32], u8)>)
    ensures
        match r {
            Some(p) => found_program_address(seeds.deep_view(), program_id@) == Some((p.0@, p.1))
                && program_address(seeds.deep_view().push(seq![p.1]), program_id@) == Some(p.0@),
            None => found_program_address(seeds.deep_view(), program_id@) is None,
        },
{
    let refs: Vec<&[u8]> = seeds.iter().map(|s| s.as_slice()).collect();
    let pk = Pubkey::new_from_array(*program_id);
    Pubkey::try_find_program_address(&refs, &pk).map(|(a, b)| (a.to_bytes(), b))
}

/// Label of a market record's own address (the bytes of "market").
pub open spec fn market_seed() -> Seq<u8> {
    seq![109u8, 97u8, 114u8, 107u8, 101u8, 116u8]
}

/// Label of a market's vault-authority address.
pub open spec fn authority_seed() -> Seq<u8> {
    seq![97u8, 117u8, 116u8, 104u8, 111u8, 114u8, 105u8, 116u8, 121u8]
}

/// Label of a market's automated-market record address.
pub open spec fn amm_seed() -> Seq<u8> {
    seq![97u8, 109u8, 109u8]
}

/// Label of a market's bond-mint address.
pub open spec fn bond_mint_seed() -> Seq<u8> {
    seq![98u8, 111u8, 110u8, 100u8, 95u8, 109u8, 105u8, 110u8, 116u8]
}

/// Seed list of a market record: the fixed label plus the immutable issuer
/// name, so the address is reproducible forever.
pub open spec fn market_seeds(issuer_name: Seq<u8>) -> Seq<Seq<u8>> {
    seq![market_seed(), issuer_name]
}

/// Seed list of a fixed-price market record: the fixed label plus the bond
/// mint's address.
pub open spec fn fixed_market_seeds(bond_mint: Seq<u8>) -> Seq<Seq<u8>> {
    seq![market_seed(), bond_mint]
}

/// Seed list of a market's vault authority: the fixed label plus the
/// market's own address.
pub open spec fn authority_seeds(market: Seq<u8>) -> Seq<Seq<u8>> {
    seq![authority_seed(), market]
}

/// Seed list of a market's automated-market record.
pub open spec fn amm_seeds(market: Seq<u8>) -> Seq<Seq<u8>> {
    seq![amm_seed(), market]
}

/// Seed list of a market's bond mint.
pub open spec fn bond_mint_seeds(market: Seq<u8>) -> Seq<Seq<u8>> {
    seq![bond_mint_seed(), market]
}

fn market_seed_bytes() -> (r: Vec<u8>)
    ensures
        r@ == market_seed(),
{
    let r: Vec<u8> = vec![109u8, 97u8, 114u8, 107u8, 101u8, 116u8];
    proof {
        assert(r@ =~= market_seed());
    }
    r
}

fn authority_seed_bytes() -> (r: Vec<u8>)
    ensures
        r@ == authority_seed(),
{
    let r: Vec<u8> = vec![97u8, 117u8, 116u8, 104u8, 111u8, 114u8, 105u8, 116u8, 121u8];
    proof {
        assert(r@ =~= authority_seed());
    }
    r
}

fn amm_seed_bytes() -> (r: Vec<u8>)
    ensures
        r@ == amm_seed(),
{
    let r: Vec<u8> = vec![97u8, 109u8, 109u8];
    proof {
        assert(r@ =~= amm_seed());
    }
    r
}

fn bond_mint_seed_bytes() -> (r: Vec<u8>)
    ensures
        r@ == bond_mint_seed(),
{
    let r: Vec<u8> = vec![98u8, 111u8, 110u8, 100u8, 95u8, 109u8, 105u8, 110u8, 116u8];
    proof {
        assert(r@ =~= bond_mint_seed());
    }
    r
}

/// Derive a market record's address and bump from its issuer name.
pub fn derive_market_address(issuer_name: &Vec<u8>, program_id: &[u8; 32]) -> (r: Option<([u8; 32], u8)>)
    ensures
        match r {
            Some(p) => found_program_address(market_seeds(issuer_name@), program_id@) == Some((p.0@, p.1))
                && program_address(market_seeds(issuer_name@).push(seq![p.1]), program_id@) == Some(p.0@),
            None => found_program_address(market_seeds(issuer_name@), program_id@) is None,
        },
{
    let mut seeds: Vec<Vec<u8>> = Vec::new();
    seeds.push(market_seed_bytes());
    seeds.push(copy_bytes(issuer_name));
    proof {
        assert(seeds.deep_view() =~~= market_seeds(issuer_name@));
    }
    find_program_address(&seeds, program_id)
}

/// Derive a fixed-price market record's address and bump from its bond mint.
pub fn derive_fixed_market_address(bond_mint: &[u8; 32], program_id: &[u8; 32]) -> (r: Option<([u8; 32], u8)>)
    ensures
        match r {
            Some(p) => found_program_address(fixed_market_seeds(bond_mint@), program_id@) == Some((p.0@, p.1))
                && program_address(fixed_market_seeds(bond_mint@).push(seq![p.1]), program_id@) == Some(p.0@),
            None => found_program_address(fixed_market_seeds(bond_mint@), program_id@) is None,
        },
{
    let mut seeds: Vec<Vec<u8>> = Vec::new();
    seeds.push(market_seed_bytes());
    seeds.push(copy_bytes32(bond_mint));
    proof {
        assert(seeds.deep_view() =~~= fixed_market_seeds(bond_mint@));
    }
    find_program_address(&seeds, program_id)
}

/// Derive a market's vault-authority address and bump from the market's own
/// address.
pub fn derive_authority_address(market: &[u8; 32], program_id: &[u8; 32]) -> (r: Option<([u8; 32], u8)>)
    ensures
        match r {
            Some(p) => found_program_address(authority_seeds(market@), program_id@) == Some((p.0@, p.1))
                && program_address(authority_seeds(market@).push(seq![p.1]), program_id@) == Some(p.0@),
            None => found_program_address(authority_seeds(market@), program_id@) is None,
        },
{
    let mut seeds: Vec<Vec<u8>> = Vec::new();
    seeds.push(authority_seed_bytes());
    seeds.push(copy_bytes32(market));
    proof {
        assert(seeds.deep_view() =~~= authority_seeds(market@));
    }
    find_program_address(&seeds, program_id)
}

/// Derive a market's automated-market record address and bump.
pub fn derive_amm_address(market: &[u8; 32], program_id: &[u8; 32]) -> (r: Option<([u8; 32], u8)>)
    ensures
        match r {
            Some(p) => found_program_address(amm_seeds(market@), program_id@) == Some((p.0@, p.1))
                && program_address(amm_seeds(market@).push(seq![p.1]), program_id@) == Some(p.0@),
            None => found_program_address(amm_seeds(market@), program_id@) is None,
        },
{
    let mut seeds: Vec<Vec<u8>> = Vec::new();
    seeds.push(amm_seed_bytes());
    seeds.push(copy_bytes32(market));
    proof {
        assert(seeds.deep_view() =~~= amm_seeds(market@));
    }
    find_program_address(&seeds, program_id)
}

/// Derive a market's bond-mint address and bump.
pub fn derive_bond_mint_address(market: &[u8; 32], program_id: &[u8; 32]) -> (r: Option<([u8; 32], u8)>)
    ensures
        match r {
            Some(p) => found_program_address(bond_mint_seeds(market@), program_id@) == Some((p.0@, p.1))
                && program_address(bond_mint_seeds(market@).push(seq![p.1]), program_id@) == Some(p.0@),
            None => found_program_address(bond_mint_seeds(market@), program_id@) is None,
        },
{
    let mut seeds: Vec<Vec<u8>> = Vec::new();
    seeds.push(bond_mint_seed_bytes());
    seeds.push(copy_bytes32(market));
    proof {
        assert(seeds.deep_view() =~~= bond_mint_seeds(market@));
    }
    find_program_address(&seeds, program_id)
}

/// Whether `expected` is exactly the address that the seed list plus the
/// stored bump re-derives: the only legitimate proof that a presented
/// address is genuine.
pub open spec fn derives_to(seeds: Seq<Seq<u8>>, bump: u8, program_id: Seq<u8>, expected: Seq<u8>) -> bool {
    program_address(seeds.push(seq![bump]), program_id) == Some(expected)
}

fn check_derivation(seeds: Vec<Vec<u8>>, bump: u8, program_id: &[u8; 32], expected: &[u8; 32]) -> (r: bool)
    ensures
        r == derives_to(seeds.deep_view(), bump, program_id@, expected@),
{
    let mut full = seeds;
    let bump_seed: Vec<u8> = vec![bump];
    proof {
        assert(bump_seed@ =~= seq![bump]);
    }
    full.push(bump_seed);
    proof {
        assert(full.deep_view() =~~= seeds.deep_view().push(seq![bump]));
    }
    match create_program_address(&full, program_id) {
        Some(a) => bytes32_eq(&a, expected),
        None => false,
    }
}

/// Re-derive a market record's address from its immutable issuer name and
/// stored bump, and compare it with a presented address.
pub fn verify_market_address(issuer_name: &Vec<u8>, bump: u8, program_id: &[u8; 32], expected: &[u8; 32]) -> (r: bool)
    ensures
        r == derives_to(market_seeds(issuer_name@), bump, program_id@, expected@),
{
    let mut seeds: Vec<Vec<u8>> = Vec::new();
    seeds.push(market_seed_bytes());
    seeds.push(copy_bytes(issuer_name));
    proof {
        assert(seeds.deep_view() =~~= market_seeds(issuer_name@));
    }
    check_derivation(seeds, bump, program_id, expected)
}

/// Re-derive a fixed-price market record's address from its bond mint and
/// stored bump, and compare it with a presented address.
pub fn verify_fixed_market_address(bond_mint: &[u8; 32], bump: u8, program_id: &[u8; 32], expected: &[u8; 32]) -> (r: bool)
    ensures
        r == derives_to(fixed_market_seeds(bond_mint@), bump, program_id@, expected@),
{
    let mut seeds: Vec<Vec<u8>> = Vec::new();
    seeds.push(market_seed_bytes());
    seeds.push(copy_bytes32(bond_mint));
    proof {
        assert(seeds.deep_view() =~~= fixed_market_seeds(bond_mint@));
    }
    check_derivation(seeds, bump, program_id, expected)
}

/// Re-derive a market's vault-authority address from the market's own
/// address and stored bump, and compare it with a presented address.
pub fn verify_authority_address(market: &[u8; 32], bump: u8, program_id: &[u8; 32], expected: &[u8; 32]) -> (r: bool)
    ensures
        r == derives_to(authority_seeds(market@), bump, program_id@, expected@),
{
    let mut seeds: Vec<Vec<u8>> = Vec::new();
    seeds.push(authority_seed_bytes());
    seeds.push(copy_bytes32(market));
    proof {
        assert(seeds.deep_view() =~~= authority_seeds(market@));
    }
    check_derivation(seeds, bump, program_id, expected)
}

} // verus!
