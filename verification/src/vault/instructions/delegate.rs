//! Moving custody of a vault to the low-latency domain.

use vstd::prelude::*;
use crate::address::seeds_view;
use crate::encoding::{to_vec, Pubkey};
use crate::vault::state::vault::Vault;

verus! {

/// Identities of the accounts the operation touches.
#[derive(Clone, Copy, Debug, PartialEq, Eq)]
pub struct DelegateInput {
    pub owner: Pubkey,
    pub vault: Pubkey,
}

/// The seeds of the record's derived address: the prefix, then the
/// owner.
pub open spec fn delegation_seeds(owner: Pubkey) -> Seq<Seq<u8>> {
    seq![Vault::SEED_PREFIX@, owner@]
}

/// The seeds under which the host delegates the signer's record.
pub fn handler(accounts: &DelegateInput) -> (seeds: Vec<Vec<u8>>)
    ensures
        seeds_view(seeds@) == delegation_seeds(accounts.owner),
{
    let mut seeds: Vec<Vec<u8>> = Vec::new();
    seeds.push(to_vec(Vault::SEED_PREFIX.as_slice()));
    seeds.push(to_vec(accounts.owner.as_slice()));
    assert(seeds_view(seeds@) =~= delegation_seeds(accounts.owner));
    seeds
}

} // verus!
