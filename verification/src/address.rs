//! Program-derived addresses: deterministic identities computed from seed
//! bytes and the identity of the program that owns them.

use vstd::prelude::*;
use crate::encoding::Pubkey;

verus! {

/// The derived address and bump seed that `Pubkey::try_find_program_address`
/// finds for `seeds` under `program_id`, or `None` where it finds none.
pub uninterp spec fn program_address(seeds: Seq<Seq<u8>>, program_id: Seq<u8>) -> Option<(Seq<u8>, u8)>;

/// The views of a list of seeds.
pub open spec fn seeds_view(seeds: Seq<Vec<u8>>) -> Seq<Seq<u8>> {
    Seq::new(seeds.len(), |i: int| seeds[i]@)
}

/// The plain value of a search result.
pub open spec fn found_view(found: Option<(Pubkey, u8)>) -> Option<(Seq<u8>, u8)> {
    match found {
        Some((address, bump)) => Some((address@, bump)),
        None => None,
    }
}

/// Calls `solana_program::pubkey::Pubkey::try_find_program_address`.
///
/// Trusted: the outcome is a function of the seeds and the program identity
/// alone. The outside function returns `None` rather than panic when the seeds
/// are too many or too long, or when no bump seed yields an address.
#[verifier::external_body]
pub(crate) fn try_find_program_address(seeds: &Vec<Vec<u8>>, program_id: &Pubkey) -> (found: Option<(Pubkey, u8)>)
    ensures
        found_view(found) == program_address(seeds_view(seeds@), program_id@),
{
    let parts: Vec<&[u8]> = seeds.iter().map(|seed| seed.as_slice()).collect();
    let program = solana_program::pubkey::Pubkey::new_from_array(*program_id);
    match solana_program::pubkey::Pubkey::try_find_program_address(&parts, &program) {
        Some((address, bump)) => Some((address.to_bytes(), bump)),
        None => None,
    }
}

} // verus!
