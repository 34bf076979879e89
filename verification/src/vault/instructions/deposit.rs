//! Paying into a vault.

use vstd::prelude::*;
use crate::encoding::{bytes32_eq, Pubkey};
use crate::vault::errors::VaultError;
use crate::vault::state::vault::Vault;

verus! {

/// Identities of the accounts the operation touches.
#[derive(Clone, Copy, Debug, PartialEq, Eq)]
pub struct Deposit {
    pub owner: Pubkey,
    pub vault: Pubkey,
}

/// Why the deposit is refused, if it is.
pub open spec fn rejection(vault: &Vault, accounts: &Deposit, amount: u64) -> Option<VaultError> {
    if vault.owner@ != accounts.owner@ {
        Some(VaultError::Unauthorized)
    } else if amount == 0 {
        Some(VaultError::InvalidAmount)
    } else if vault.total_deposited + amount > u64::MAX {
        Some(VaultError::ArithmeticOverflow)
    } else {
        None
    }
}

/// Books a deposit and hands back the amount for the host to transfer
/// from the owner to the vault, or refuses with no effect.
pub fn handler(vault: &mut Vault, accounts: &Deposit, amount: u64) -> (result: Result<
    u64,
    VaultError,
>)
    ensures
        match rejection(old(vault), accounts, amount) {
            Some(error) => {
                &&& result == Err::<u64, VaultError>(error)
                &&& *final(vault) == *old(vault)
            },
            None => {
                &&& result == Ok::<u64, VaultError>(amount)
                &&& *final(vault) == (Vault {
                    total_deposited: (old(vault).total_deposited + amount) as u64,
                    ..*old(vault)
                })
            },
        },
{
    if !bytes32_eq(&vault.owner, &accounts.owner) {
        return Err(VaultError::Unauthorized);
    }
    if amount == 0 {
        return Err(VaultError::InvalidAmount);
    }
    if amount > u64::MAX - vault.total_deposited {
        return Err(VaultError::ArithmeticOverflow);
    }
    vault.total_deposited = vault.total_deposited + amount;
    Ok(amount)
}

} // verus!
