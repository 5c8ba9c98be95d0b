use vstd::prelude::*;

use crate::addresses::{Address, ASSOCIATED_TOKEN_PROGRAM_ID, PROGRAM_ID};
use crate::error::ProgramError;

verus! {

/// The seed literal tagging every escrow record's derived address
/// (the bytes of `"escrow"`).
pub const ESCROW_TAG: [u8; 6] = [101, 115, 99, 114, 111, 119];

/// The runtime's deterministic address derivation: the address a seed tuple
/// derives under a program address, or `None` where the tuple derives no
/// valid (off-curve) address.
pub uninterp spec fn pda_of(seeds: Seq<Seq<u8>>, program: Seq<u8>) -> Option<Seq<u8>>;

/// The runtime's bump-seed search: the derived address and the bump byte it
/// finds for a seed tuple under a program address, or `None` where no bump
/// yields a valid address.
pub uninterp spec fn find_pda_of(seeds: Seq<Seq<u8>>, program: Seq<u8>) -> Option<(Seq<u8>, u8)>;

/// The view of a derivation result.
pub open spec fn view_opt_address(r: Option<[u8; 32]>) -> Option<Seq<u8>> {
    match r {
        Some(a) => Some(a@),
        None => None,
    }
}

/// The view of a bump-search result.
pub open spec fn view_opt_pair(r: Option<([u8; 32], u8)>) -> Option<(Seq<u8>, u8)> {
    match r {
        Some(p) => Some((p.0@, p.1)),
        None => None,
    }
}

/// Relies on `solana_address::Address::create_program_address` (re-exported
/// through pinocchio): the derivation is a pure function of the seed tuple
/// and the program address.
#[verifier::external_body]
pub(crate) fn create_program_address_bytes(seeds: &Vec<Vec<u8>>, program: &Address) -> (r: Option<[u8; 32]>)
    ensures
        view_opt_address(r) == pda_of(seeds.deep_view(), program@),
{
    let refs: Vec<&[u8]> = seeds.iter().map(|s| s.as_slice()).collect();
    match pinocchio::Address::create_program_address(
        &refs,
        &pinocchio::Address::new_from_array(*program),
    ) {
        Ok(a) => Some(a.to_bytes()),
        Err(_) => None,
    }
}

/// Relies on `solana_address::Address::try_find_program_address` (re-exported
/// through pinocchio): the search is a pure function of the seed tuple and
/// the program address, and a found pair re-derives the found address once
/// its bump is appended to the seeds.
#[verifier::external_body]
pub(crate) fn try_find_program_address_bytes(seeds: &Vec<Vec<u8>>, program: &Address) -> (r: Option<
    ([u8; 32], u8),
>)
    ensures
        view_opt_pair(r) == find_pda_of(seeds.deep_view(), program@),
        r matches Some(p) ==> pda_of(seeds.deep_view().push(seq![p.1]), program@) == Some(p.0@),
{
    let refs: Vec<&[u8]> = seeds.iter().map(|s| s.as_slice()).collect();
    pinocchio::Address::try_find_program_address(
        &refs,
        &pinocchio::Address::new_from_array(*program),
    ).map(|p| (p.0.to_bytes(), p.1))
}

/// The seed tuple under which one escrow record's address is derived:
/// the `"escrow"` tag, the maker's address, the record's seed
/// little-endian, and the bump byte.
pub open spec fn spec_escrow_seeds(maker: Seq<u8>, seed: u64, bump: u8) -> Seq<Seq<u8>> {
    seq![ESCROW_TAG@, maker, vstd::bytes::spec_u64_to_le_bytes(seed), seq![bump]]
}

/// The escrow record's derived address under this program, if the seed
/// material derives one.
pub open spec fn escrow_address_of(maker: Seq<u8>, seed: u64, bump: u8) -> Option<Seq<u8>> {
    pda_of(spec_escrow_seeds(maker, seed, bump), PROGRAM_ID@)
}

/// The deterministic associated holding-account address for a wallet and a
/// mint under an asset program, with its bump.
pub open spec fn ata_address_of(wallet: Seq<u8>, token_program: Seq<u8>, mint: Seq<u8>) -> Option<
    (Seq<u8>, u8),
> {
    find_pda_of(seq![wallet, token_program, mint], ASSOCIATED_TOKEN_PROGRAM_ID@)
}

/// Copies an address into an owned byte vector.
fn address_vec(a: &Address) -> (r: Vec<u8>)
    ensures
        r@ == a@,
{
    vstd::slice::slice_to_vec(a.as_slice())
}

/// Builds the escrow seed tuple as owned byte vectors.
pub fn escrow_seed_vecs(maker: &Address, seed: u64, bump: u8) -> (r: Vec<Vec<u8>>)
    ensures
        r.deep_view() == spec_escrow_seeds(maker@, seed, bump),
{
    let mut r: Vec<Vec<u8>> = Vec::new();
    r.push(vstd::slice::slice_to_vec(ESCROW_TAG.as_slice()));
    r.push(address_vec(maker));
    r.push(vstd::bytes::u64_to_le_bytes(seed));
    let mut bump_seed: Vec<u8> = Vec::new();
    bump_seed.push(bump);
    r.push(bump_seed);
    proof {
        assert(r.deep_view() =~~= spec_escrow_seeds(maker@, seed, bump));
    }
    r
}

/// Re-derives one escrow record's address from its seed material.
pub fn derive_escrow_address(maker: &Address, seed: u64, bump: u8) -> (r: Option<[u8; 32]>)
    ensures
        view_opt_address(r) == escrow_address_of(maker@, seed, bump),
{
    let seeds = escrow_seed_vecs(maker, seed, bump);
    create_program_address_bytes(&seeds, &PROGRAM_ID)
}

/// Derives the associated holding-account address for a wallet and a mint
/// under an asset program.
pub fn derive_associated_token_address(
    wallet: &Address,
    token_program: &Address,
    mint: &Address,
) -> (r: Option<([u8; 32], u8)>)
    ensures
        view_opt_pair(r) == ata_address_of(wallet@, token_program@, mint@),
{
    let mut seeds: Vec<Vec<u8>> = Vec::new();
    seeds.push(address_vec(wallet));
    seeds.push(address_vec(token_program));
    seeds.push(address_vec(mint));
    proof {
        assert(seeds.deep_view() =~~= seq![wallet@, token_program@, mint@]);
    }
    try_find_program_address_bytes(&seeds, &ASSOCIATED_TOKEN_PROGRAM_ID)
}

/// What the re-derivation check of the refund path decides: the record's
/// seed material must re-derive exactly the escrow account's own address.
pub open spec fn spec_verify_derivation(
    maker: Seq<u8>,
    seed: u64,
    bump: u8,
    escrow_key: Seq<u8>,
) -> Result<(), ProgramError> {
    match escrow_address_of(maker, seed, bump) {
        None => Err(ProgramError::InvalidSeeds),
        Some(derived) => if derived == escrow_key {
            Ok(())
        } else {
            Err(ProgramError::InvalidAccountOwner)
        },
    }
}

/// Re-derives the escrow's address from the record's seed material and
/// compares it byte-for-byte with the escrow account's actual address.
pub fn verify_escrow_derivation(
    maker: &Address,
    seed: u64,
    bump: u8,
    escrow_key: &Address,
) -> (r: Result<(), ProgramError>)
    ensures
        r == spec_verify_derivation(maker@, seed, bump, escrow_key@),
{
    match derive_escrow_address(maker, seed, bump) {
        None => Err(ProgramError::InvalidSeeds),
        Some(derived) => {
            if crate::addresses::address_eq(&derived, escrow_key) {
                Ok(())
            } else {
                Err(ProgramError::InvalidAccountOwner)
            }
        },
    }
}

/// Derivation round-trip: an escrow record whose seed material was produced
/// by the creation path (so that it derives the account's own address)
/// passes the refund path's re-derivation check.
pub proof fn lemma_derivation_round_trip(maker: Seq<u8>, seed: u64, bump: u8, escrow_key: Seq<u8>)
    requires
        escrow_address_of(maker, seed, bump) == Some(escrow_key),
    ensures
        spec_verify_derivation(maker, seed, bump, escrow_key) == Ok::<(), ProgramError>(()),
{
}

} // verus!
