//! Trade enforcement: the guards before a swap and the bookkeeping after
//! it.

use vstd::prelude::*;
use crate::encoding::{bytes32_eq, Pubkey};
use crate::vault::errors::VaultError;
use crate::vault::state::vault::Vault;

verus! {

/// Identities of the accounts the pre-swap check touches.
#[derive(Clone, Copy, Debug, PartialEq, Eq)]
pub struct PreSwapCheck {
    pub owner: Pubkey,
    pub vault: Pubkey,
    pub destination_token_account: Pubkey,
}

/// Identities of the accounts the post-swap update touches.
#[derive(Clone, Copy, Debug, PartialEq, Eq)]
pub struct PostSwapUpdate {
    pub owner: Pubkey,
    pub vault: Pubkey,
    pub destination_token_account: Pubkey,
}

/// Identities of the accounts the enforced swap touches.
#[derive(Clone, Copy, Debug, PartialEq, Eq)]
pub struct SwapWithEnforcement {
    pub owner: Pubkey,
    pub vault: Pubkey,
}

/// What the host read of the destination token account.
#[derive(Clone, Copy, Debug, PartialEq, Eq)]
pub struct TokenBalance {
    /// The identity that owns the token account.
    pub owner: Pubkey,
    pub amount: u64,
}

/// Why the pre-swap check refuses, if it does; the checks are made in
/// this order and the first that fails decides.
pub open spec fn pre_swap_rejection(
    vault: &Vault,
    accounts: &PreSwapCheck,
    destination: &TokenBalance,
    amount_in: u64,
    min_out: u64,
    unix_timestamp: i64,
) -> Option<VaultError> {
    let rolled = vault.rolled(unix_timestamp);
    if vault.owner@ != accounts.owner@ {
        Some(VaultError::Unauthorized)
    } else if destination.owner@ != accounts.vault@ {
        Some(VaultError::InvalidTokenAccount)
    } else if rolled.trade_rejection(unix_timestamp, amount_in, min_out) is Some {
        rolled.trade_rejection(unix_timestamp, amount_in, min_out)
    } else if rolled.swap_in_progress {
        Some(VaultError::SwapAlreadyInProgress)
    } else {
        None
    }
}

/// Why the post-swap update refuses, if it does.
pub open spec fn post_swap_rejection(
    vault: &Vault,
    accounts: &PostSwapUpdate,
    destination: &TokenBalance,
) -> Option<VaultError> {
    if vault.owner@ != accounts.owner@ {
        Some(VaultError::Unauthorized)
    } else if destination.owner@ != accounts.vault@ {
        Some(VaultError::InvalidTokenAccount)
    } else if !vault.swap_in_progress {
        Some(VaultError::NoSwapInProgress)
    } else if destination.amount < vault.balance_before_swap {
        Some(VaultError::ArithmeticOverflow)
    } else if vault.trades_today == u8::MAX {
        Some(VaultError::ArithmeticOverflow)
    } else {
        None
    }
}

/// Why the enforced swap refuses, if it does.
pub open spec fn swap_rejection(
    vault: &Vault,
    accounts: &SwapWithEnforcement,
    amount_in: u64,
    min_out: u64,
    unix_timestamp: i64,
) -> Option<VaultError> {
    let rolled = vault.rolled(unix_timestamp);
    if vault.owner@ != accounts.owner@ {
        Some(VaultError::Unauthorized)
    } else if rolled.trade_rejection(unix_timestamp, amount_in, min_out) is Some {
        rolled.trade_rejection(unix_timestamp, amount_in, min_out)
    } else if rolled.trades_today == u8::MAX {
        Some(VaultError::ArithmeticOverflow)
    } else {
        None
    }
}

/// Opens a swap: applies the session rules and the pre-trade guards, then
/// records what is about to be swapped and the destination balance before
/// it. A refusal changes nothing.
pub fn pre_swap_check_handler(
    vault: &mut Vault,
    accounts: &PreSwapCheck,
    destination: &TokenBalance,
    source_mint: Pubkey,
    dest_mint: Pubkey,
    amount_in: u64,
    min_out: u64,
    unix_timestamp: i64,
) -> (result: Result<(), VaultError>)
    requires
        old(vault).clock_in_range(unix_timestamp),
    ensures
        match pre_swap_rejection(
            old(vault),
            accounts,
            destination,
            amount_in,
            min_out,
            unix_timestamp,
        ) {
            Some(error) => {
                &&& result == Err::<(), VaultError>(error)
                &&& *final(vault) == *old(vault)
            },
            None => {
                &&& result is Ok
                &&& *final(vault) == (Vault {
                    swap_in_progress: true,
                    pending_swap_source_mint: source_mint,
                    pending_swap_dest_mint: dest_mint,
                    pending_swap_amount_in: amount_in,
                    pending_swap_min_out: min_out,
                    balance_before_swap: destination.amount,
                    ..old(vault).rolled(unix_timestamp)
                })
            },
        },
{
    if !bytes32_eq(&vault.owner, &accounts.owner) {
        return Err(VaultError::Unauthorized);
    }
    if !bytes32_eq(&destination.owner, &accounts.vault) {
        return Err(VaultError::InvalidTokenAccount);
    }
    let mut next = *vault;
    match next.enforce_trade_rules(unix_timestamp, amount_in, min_out) {
        Ok(()) => {},
        Err(e) => {
            return Err(e);
        },
    }
    if next.swap_in_progress {
        return Err(VaultError::SwapAlreadyInProgress);
    }
    next.swap_in_progress = true;
    next.pending_swap_source_mint = source_mint;
    next.pending_swap_dest_mint = dest_mint;
    next.pending_swap_amount_in = amount_in;
    next.pending_swap_min_out = min_out;
    next.balance_before_swap = destination.amount;
    *vault = next;
    Ok(())
}

/// Closes a swap: what arrived is the destination balance now less the
/// balance recorded before; the trade counts as a loss when less arrived
/// than the minimum asked for. A refusal changes nothing.
pub fn post_swap_update_handler(
    vault: &mut Vault,
    accounts: &PostSwapUpdate,
    destination: &TokenBalance,
    unix_timestamp: i64,
) -> (result: Result<(), VaultError>)
    ensures
        match post_swap_rejection(old(vault), accounts, destination) {
            Some(error) => {
                &&& result == Err::<(), VaultError>(error)
                &&& *final(vault) == *old(vault)
            },
            None => {
                &&& result is Ok
                &&& *final(vault) == (Vault {
                    last_trade_was_loss: destination.amount - old(vault).balance_before_swap < old(
                        vault,
                    ).pending_swap_min_out,
                    trades_today: (old(vault).trades_today + 1) as u8,
                    last_trade_time: unix_timestamp,
                    swap_in_progress: false,
                    ..*old(vault)
                })
            },
        },
{
    if !bytes32_eq(&vault.owner, &accounts.owner) {
        return Err(VaultError::Unauthorized);
    }
    if !bytes32_eq(&destination.owner, &accounts.vault) {
        return Err(VaultError::InvalidTokenAccount);
    }
    if !vault.swap_in_progress {
        return Err(VaultError::NoSwapInProgress);
    }
    if destination.amount < vault.balance_before_swap {
        return Err(VaultError::ArithmeticOverflow);
    }
    let actual_out = destination.amount - vault.balance_before_swap;
    let mut next = *vault;
    next.last_trade_was_loss = actual_out < next.pending_swap_min_out;
    match next.increment_trade() {
        Ok(()) => {},
        Err(e) => {
            return Err(e);
        },
    }
    next.last_trade_time = unix_timestamp;
    next.swap_in_progress = false;
    *vault = next;
    Ok(())
}

/// Admits one trade under the session rules and the pre-trade guards and
/// counts it. A refusal changes nothing.
pub fn handler(
    vault: &mut Vault,
    accounts: &SwapWithEnforcement,
    amount_in: u64,
    min_out: u64,
    unix_timestamp: i64,
) -> (result: Result<(), VaultError>)
    requires
        old(vault).clock_in_range(unix_timestamp),
    ensures
        match swap_rejection(old(vault), accounts, amount_in, min_out, unix_timestamp) {
            Some(error) => {
                &&& result == Err::<(), VaultError>(error)
                &&& *final(vault) == *old(vault)
            },
            None => {
                &&& result is Ok
                &&& *final(vault) == (Vault {
                    trades_today: (old(vault).rolled(unix_timestamp).trades_today + 1) as u8,
                    last_trade_time: unix_timestamp,
                    ..old(vault).rolled(unix_timestamp)
                })
            },
        },
{
    if !bytes32_eq(&vault.owner, &accounts.owner) {
        return Err(VaultError::Unauthorized);
    }
    let mut next = *vault;
    match next.enforce_trade_rules(unix_timestamp, amount_in, min_out) {
        Ok(()) => {},
        Err(e) => {
            return Err(e);
        },
    }
    match next.increment_trade() {
        Ok(()) => {},
        Err(e) => {
            return Err(e);
        },
    }
    next.last_trade_time = unix_timestamp;
    *vault = next;
    Ok(())
}

} // verus!
