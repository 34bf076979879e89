//! Setting a vault's trading rules.

use vstd::prelude::*;
use crate::encoding::{bytes32_eq, Pubkey};
use crate::vault::errors::VaultError;
use crate::vault::state::vault::Vault;

verus! {

/// Identities of the accounts the operation touches.
#[derive(Clone, Copy, Debug, PartialEq, Eq)]
pub struct SetRules {
    pub owner: Pubkey,
    pub vault: Pubkey,
}

/// Replaces the rules on the owner's behalf; anyone else is refused.
pub fn handler(
    vault: &mut Vault,
    accounts: &SetRules,
    daily_loss_limit: u64,
    max_trades_per_day: u8,
    lockout_duration: u32,
) -> (result: Result<(), VaultError>)
    ensures
        old(vault).owner@ != accounts.owner@ ==> {
            &&& result == Err::<(), VaultError>(VaultError::Unauthorized)
            &&& *final(vault) == *old(vault)
        },
        old(vault).owner@ == accounts.owner@ ==> {
            &&& result is Ok
            &&& *final(vault) == (Vault {
                daily_loss_limit,
                max_trades_per_day,
                lockout_duration,
                ..*old(vault)
            })
        },
{
    if !bytes32_eq(&vault.owner, &accounts.owner) {
        return Err(VaultError::Unauthorized);
    }
    vault.daily_loss_limit = daily_loss_limit;
    vault.max_trades_per_day = max_trades_per_day;
    vault.lockout_duration = lockout_duration;
    Ok(())
}

} // verus!
