//! Unlocking a vault once its lockout has run out.

use vstd::prelude::*;
use crate::encoding::{bytes32_eq, Pubkey};
use crate::vault::errors::VaultError;
use crate::vault::state::vault::Vault;

verus! {

/// Identities of the accounts the operation touches.
#[derive(Clone, Copy, Debug, PartialEq, Eq)]
pub struct Unlock {
    pub owner: Pubkey,
    pub vault: Pubkey,
}

/// Why the unlock is refused, if it is.
pub open spec fn rejection(vault: &Vault, accounts: &Unlock, unix_timestamp: i64) -> Option<
    VaultError,
> {
    if vault.owner@ != accounts.owner@ {
        Some(VaultError::Unauthorized)
    } else if unix_timestamp < vault.lockout_until {
        Some(VaultError::LockoutNotExpired)
    } else {
        None
    }
}

/// Lifts the lock on the owner's behalf, or refuses with no effect.
pub fn handler(vault: &mut Vault, accounts: &Unlock, unix_timestamp: i64) -> (result: Result<
    (),
    VaultError,
>)
    ensures
        match rejection(old(vault), accounts, unix_timestamp) {
            Some(error) => {
                &&& result == Err::<(), VaultError>(error)
                &&& *final(vault) == *old(vault)
            },
            None => {
                &&& result is Ok
                &&& *final(vault) == (Vault { is_locked: false, lockout_until: 0, ..*old(vault) })
            },
        },
{
    if !bytes32_eq(&vault.owner, &accounts.owner) {
        return Err(VaultError::Unauthorized);
    }
    if !(unix_timestamp >= vault.lockout_until) {
        return Err(VaultError::LockoutNotExpired);
    }
    vault.is_locked = false;
    vault.lockout_until = 0;
    Ok(())
}

} // verus!
