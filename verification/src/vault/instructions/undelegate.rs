//! Returning custody of a vault to the general domain.

use vstd::prelude::*;
use crate::encoding::Pubkey;

verus! {

/// Identities of the accounts the operation touches.
#[derive(Clone, Copy, Debug, PartialEq, Eq)]
pub struct Undelegate {
    pub owner: Pubkey,
    pub vault: Pubkey,
    pub magic_context: Pubkey,
    pub magic_program: Pubkey,
}

/// The accounts for the host to snapshot and hand back to the general
/// domain: the vault alone.
pub fn handler(accounts: &Undelegate) -> (commited: Vec<Pubkey>)
    ensures
        commited@ == seq![accounts.vault],
{
    let mut commited: Vec<Pubkey> = Vec::new();
    commited.push(accounts.vault);
    assert(commited@ =~= seq![accounts.vault]);
    commited
}

} // verus!
