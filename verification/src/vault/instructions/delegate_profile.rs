//! Moving custody of a profile to the low-latency domain.

use vstd::prelude::*;
use crate::address::seeds_view;
use crate::encoding::{to_vec, Pubkey};
use crate::vault::state::trader_profile::TraderProfile;

verus! {

/// Identities of the accounts the operation touches.
#[derive(Clone, Copy, Debug, PartialEq, Eq)]
pub struct DelegateProfileInput {
    pub authority: Pubkey,
    pub profile: Pubkey,
}

/// The seeds of the record's derived address: the prefix, then the
/// authority.
pub open spec fn delegation_seeds(authority: Pubkey) -> Seq<Seq<u8>> {
    seq![TraderProfile::SEED_PREFIX@, authority@]
}

/// The seeds under which the host delegates the signer's record.
pub fn handler(accounts: &DelegateProfileInput) -> (seeds: Vec<Vec<u8>>)
    ensures
        seeds_view(seeds@) == delegation_seeds(accounts.authority),
{
    let mut seeds: Vec<Vec<u8>> = Vec::new();
    seeds.push(to_vec(TraderProfile::SEED_PREFIX.as_slice()));
    seeds.push(to_vec(accounts.authority.as_slice()));
    assert(seeds_view(seeds@) =~= delegation_seeds(accounts.authority));
    seeds
}

} // verus!
