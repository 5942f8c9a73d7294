//! Deterministic keyless addressing of race escrow accounts.
//!
//! Every operation is addressed to the record derived from the triple
//! `(race_id, token_mint, entry_fee)`: the ledger hashes a fixed seed layout
//! together with the program's key into an address that no private key
//! controls, plus a disambiguating bump byte.  The seed layout is verified
//! here; the hash-based search itself is the ledger's primitive and is
//! called through a trusted wrapper.

use vstd::prelude::*;

use vstd::bytes::{spec_u64_to_le_bytes, u64_to_le_bytes};
use vstd::slice::slice_to_vec;
use vstd::string::StringSliceAdditionalSpecFns;

use crate::race::AccountId;

verus! {

broadcast use vstd::array::group_array_axioms;

/// The seed layout from which a race's escrow account address is derived:
/// the fixed prefix `"race"` in ASCII, the race identifier's bytes, the
/// asset mint's key, and the entry fee in little-endian bytes.
pub open spec fn race_seeds(
    race_id_bytes: Seq<u8>,
    token_mint: Seq<u8>,
    entry_fee_sol: u64,
) -> Seq<Seq<u8>> {
    seq![
        seq![114u8, 97u8, 99u8, 101u8],  // "race" in ASCII
        race_id_bytes,
        token_mint,
        spec_u64_to_le_bytes(entry_fee_sol),
    ]
}

/// The keyless account address and bump byte that the ledger derives from a
/// seed list and a program key, or `None` when the seeds admit no viable
/// derivation (a seed too long, too many seeds, or no bump byte that gives
/// an off-curve address).  The result is a function of the seeds and the
/// program key alone.
pub uninterp spec fn derived_address(seeds: Seq<Seq<u8>>, program_id: Seq<u8>) -> Option<
    (Seq<u8>, u8),
>;

/// Relies on anchor_lang's `Pubkey::try_find_program_address` (an alias of
/// `solana_address::Address`): a deterministic hash-based search over bump
/// bytes whose outcome depends on the seeds and the program key alone, and
/// which returns `None` instead of failing when the seeds are unusable or
/// no bump byte yields an off-curve address.
#[verifier::external_body]
fn try_derive_address(seeds: &Vec<Vec<u8>>, program_id: &AccountId) -> (r: Option<(AccountId, u8)>)
    ensures
        (match r {
            Some(p) => derived_address(seeds.deep_view(), program_id.bytes@) == Some::<
                (Seq<u8>, u8),
            >((p.0.bytes@, p.1)),
            None => derived_address(seeds.deep_view(), program_id.bytes@) is None,
        }),
{
    let program_key = anchor_lang::prelude::Pubkey::new_from_array(program_id.bytes);
    let seed_slices: Vec<&[u8]> = seeds.iter().map(|s| s.as_slice()).collect();
    anchor_lang::prelude::Pubkey::try_find_program_address(&seed_slices, &program_key).map(
        |(address, bump)| (AccountId { bytes: address.to_bytes() }, bump),
    )
}

/// Derives the address and bump byte of the escrow account for the race
/// described by `(race_id, token_mint, entry_fee_sol)` under the program
/// `program_id`, assembling the verified seed layout and handing it to the
/// ledger's derivation primitive.  `None` means the parameters admit no
/// account (for instance a race identifier longer than a seed may be).
pub fn race_account_address(
    race_id: &str,
    token_mint: &AccountId,
    entry_fee_sol: u64,
    program_id: &AccountId,
) -> (r: Option<(AccountId, u8)>)
    ensures
        r matches Some(p) ==> derived_address(
            race_seeds(race_id.spec_bytes(), token_mint.bytes@, entry_fee_sol),
            program_id.bytes@,
        ) == Some::<(Seq<u8>, u8)>((p.0.bytes@, p.1)),
        r is None ==> derived_address(
            race_seeds(race_id.spec_bytes(), token_mint.bytes@, entry_fee_sol),
            program_id.bytes@,
        ) is None,
{
    let mut prefix: Vec<u8> = Vec::new();
    prefix.push(114);  // 'r'
    prefix.push(97);  // 'a'
    prefix.push(99);  // 'c'
    prefix.push(101);  // 'e'
    let mut seeds: Vec<Vec<u8>> = Vec::new();
    seeds.push(prefix);
    seeds.push(slice_to_vec(race_id.as_bytes()));
    seeds.push(slice_to_vec(token_mint.bytes.as_slice()));
    seeds.push(u64_to_le_bytes(entry_fee_sol));
    proof {
        assert(seeds.deep_view() =~~= race_seeds(
            race_id.spec_bytes(),
            token_mint.bytes@,
            entry_fee_sol,
        ));
    }
    try_derive_address(&seeds, program_id)
}

} // verus!
