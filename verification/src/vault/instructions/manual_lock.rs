//! Locking a vault by hand.

use vstd::prelude::*;
use crate::encoding::{bytes32_eq, Pubkey};
use crate::vault::errors::VaultError;
use crate::vault::state::vault::Vault;

verus! {

/// Identities of the accounts the operation touches.
#[derive(Clone, Copy, Debug, PartialEq, Eq)]
pub struct ManualLock {
    pub owner: Pubkey,
    pub vault: Pubkey,
}

/// Why the lock is refused, if it is; the checks are made in this order
/// and the first that fails decides.
pub open spec fn rejection(vault: &Vault, accounts: &ManualLock, unix_timestamp: i64) -> Option<
    VaultError,
> {
    if vault.owner@ != accounts.owner@ {
        Some(VaultError::Unauthorized)
    } else if vault.lockout_duration == 0 {
        Some(VaultError::InvalidLockoutDuration)
    } else if unix_timestamp + vault.lockout_duration > i64::MAX {
        Some(VaultError::ArithmeticOverflow)
    } else if vault.lockout_count == u32::MAX {
        Some(VaultError::ArithmeticOverflow)
    } else {
        None
    }
}

/// Locks the vault for its lockout duration from now and counts the
/// lockout, or refuses with no effect.
pub fn handler(vault: &mut Vault, accounts: &ManualLock, unix_timestamp: i64) -> (result: Result<
    (),
    VaultError,
>)
    ensures
        match rejection(old(vault), accounts, unix_timestamp) {
            Some(error) => {
                &&& result == Err::<(), VaultError>(error)
                &&& *final(vault) == *old(vault)
            },
            None => {
                &&& result is Ok
                &&& *final(vault) == (Vault {
                    is_locked: true,
                    lockout_until: (unix_timestamp + old(vault).lockout_duration) as i64,
                    lockout_count: (old(vault).lockout_count + 1) as u32,
                    ..*old(vault)
                })
            },
        },
{
    if !bytes32_eq(&vault.owner, &accounts.owner) {
        return Err(VaultError::Unauthorized);
    }
    if vault.lockout_duration == 0 {
        return Err(VaultError::InvalidLockoutDuration);
    }
    let duration = vault.lockout_duration as i64;
    if unix_timestamp > i64::MAX - duration {
        return Err(VaultError::ArithmeticOverflow);
    }
    if vault.lockout_count == u32::MAX {
        return Err(VaultError::ArithmeticOverflow);
    }
    vault.is_locked = true;
    vault.lockout_until = unix_timestamp + duration;
    vault.lockout_count = vault.lockout_count + 1;
    Ok(())
}

} // verus!
