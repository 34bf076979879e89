//! Paying out of a vault.

use vstd::prelude::*;
use crate::encoding::{bytes32_eq, Pubkey};
use crate::vault::errors::VaultError;
use crate::vault::state::vault::Vault;

verus! {

/// Identities of the accounts the operation touches.
#[derive(Clone, Copy, Debug, PartialEq, Eq)]
pub struct Withdraw {
    pub owner: Pubkey,
    pub vault: Pubkey,
}

/// What the vault can pay out: its balance above the rent it must keep.
pub open spec fn available(vault_lamports: u64, rent_minimum: u64) -> int {
    if vault_lamports >= rent_minimum {
        vault_lamports - rent_minimum
    } else {
        0
    }
}

/// Why the withdrawal is refused, if it is; the checks are made in this
/// order and the first that fails decides.
pub open spec fn rejection(
    vault: &Vault,
    accounts: &Withdraw,
    amount: u64,
    unix_timestamp: i64,
    vault_lamports: u64,
    rent_minimum: u64,
) -> Option<VaultError> {
    if vault.owner@ != accounts.owner@ {
        Some(VaultError::Unauthorized)
    } else if vault.spec_is_currently_locked(unix_timestamp) {
        Some(VaultError::VaultLocked)
    } else if amount == 0 {
        Some(VaultError::InvalidAmount)
    } else if amount > available(vault_lamports, rent_minimum) {
        Some(VaultError::InsufficientFunds)
    } else if vault.total_withdrawn + amount > u64::MAX {
        Some(VaultError::ArithmeticOverflow)
    } else {
        None
    }
}

/// Books a withdrawal and hands back the amount for the host to move from
/// the vault to the owner, or refuses with no effect.
pub fn handler(
    vault: &mut Vault,
    accounts: &Withdraw,
    amount: u64,
    unix_timestamp: i64,
    vault_lamports: u64,
    rent_minimum: u64,
) -> (result: Result<u64, VaultError>)
    ensures
        match rejection(old(vault), accounts, amount, unix_timestamp, vault_lamports, rent_minimum) {
            Some(error) => {
                &&& result == Err::<u64, VaultError>(error)
                &&& *final(vault) == *old(vault)
            },
            None => {
                &&& result == Ok::<u64, VaultError>(amount)
                &&& *final(vault) == (Vault {
                    total_withdrawn: (old(vault).total_withdrawn + amount) as u64,
                    ..*old(vault)
                })
            },
        },
{
    if !bytes32_eq(&vault.owner, &accounts.owner) {
        return Err(VaultError::Unauthorized);
    }
    if vault.is_currently_locked(unix_timestamp) {
        return Err(VaultError::VaultLocked);
    }
    if amount == 0 {
        return Err(VaultError::InvalidAmount);
    }
    let spare: u64 = if vault_lamports >= rent_minimum {
        vault_lamports - rent_minimum
    } else {
        0
    };
    if amount > spare {
        return Err(VaultError::InsufficientFunds);
    }
    if amount > u64::MAX - vault.total_withdrawn {
        return Err(VaultError::ArithmeticOverflow);
    }
    vault.total_withdrawn = vault.total_withdrawn + amount;
    Ok(amount)
}

} // verus!
