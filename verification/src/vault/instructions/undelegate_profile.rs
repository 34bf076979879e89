//! Returning custody of a profile to the general domain.

use vstd::prelude::*;
use crate::encoding::Pubkey;

verus! {

/// Identities of the accounts the operation touches.
#[derive(Clone, Copy, Debug, PartialEq, Eq)]
pub struct UndelegateProfile {
    pub authority: Pubkey,
    pub profile: Pubkey,
    pub magic_context: Pubkey,
    pub magic_program: Pubkey,
}

/// The accounts for the host to snapshot and hand back to the general
/// domain: the profile alone.
pub fn handler(accounts: &UndelegateProfile) -> (commited: Vec<Pubkey>)
    ensures
        commited@ == seq![accounts.profile],
{
    let mut commited: Vec<Pubkey> = Vec::new();
    commited.push(accounts.profile);
    assert(commited@ =~= seq![accounts.profile]);
    commited
}

} // verus!
