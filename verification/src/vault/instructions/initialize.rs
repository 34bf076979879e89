//! Creation of a vault.

use vstd::prelude::*;
use crate::encoding::{Pubkey, DEFAULT_PUBKEY};
use crate::vault::state::vault::Vault;

verus! {

/// Identities of the accounts the operation touches.
#[derive(Clone, Copy, Debug, PartialEq, Eq)]
pub struct Initialize {
    pub owner: Pubkey,
    pub vault: Pubkey,
}

/// The record of a new vault: unlocked, no rules set, nothing moved yet.
pub open spec fn new_vault(owner: Pubkey, bump: u8, lockout_duration: u32, unix_timestamp: i64) -> Vault {
    Vault {
        owner,
        bump,
        is_locked: false,
        lockout_until: 0,
        lockout_count: 0,
        lockout_duration,
        daily_loss_limit: 0,
        max_trades_per_day: 0,
        trades_today: 0,
        session_start: unix_timestamp,
        total_deposited: 0,
        total_withdrawn: 0,
        last_trade_was_loss: false,
        last_trade_time: 0,
        cooldown_seconds: 0,
        swap_in_progress: false,
        pending_swap_source_mint: DEFAULT_PUBKEY,
        pending_swap_dest_mint: DEFAULT_PUBKEY,
        pending_swap_amount_in: 0,
        pending_swap_min_out: 0,
        balance_before_swap: 0,
    }
}

/// Builds the record of a new vault whose first session starts now.
pub fn handler(accounts: &Initialize, bump: u8, lockout_duration: u32, unix_timestamp: i64) -> (vault:
    Vault)
    ensures
        vault == new_vault(accounts.owner, bump, lockout_duration, unix_timestamp),
{
    Vault {
        owner: accounts.owner,
        bump,
        is_locked: false,
        lockout_until: 0,
        lockout_count: 0,
        lockout_duration,
        daily_loss_limit: 0,
        max_trades_per_day: 0,
        trades_today: 0,
        session_start: unix_timestamp,
        total_deposited: 0,
        total_withdrawn: 0,
        last_trade_was_loss: false,
        last_trade_time: 0,
        cooldown_seconds: 0,
        swap_in_progress: false,
        pending_swap_source_mint: DEFAULT_PUBKEY,
        pending_swap_dest_mint: DEFAULT_PUBKEY,
        pending_swap_amount_in: 0,
        pending_swap_min_out: 0,
        balance_before_swap: 0,
    }
}

} // verus!
