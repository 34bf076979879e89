//! Creation of a trader profile.

use vstd::prelude::*;
use crate::encoding::Pubkey;
use crate::vault::state::trader_profile::{TraderProfile, INITIAL_RATING};

verus! {

/// Identities of the accounts the operation touches.
#[derive(Clone, Copy, Debug, PartialEq, Eq)]
pub struct InitializeProfile {
    pub authority: Pubkey,
    pub profile: Pubkey,
}

/// The record of a new profile: every rating at 50, nothing traded yet.
pub open spec fn new_profile(authority: Pubkey, bump: u8, unix_timestamp: i64) -> TraderProfile {
    TraderProfile {
        authority,
        bump,
        overall_rating: INITIAL_RATING,
        discipline: INITIAL_RATING,
        patience: INITIAL_RATING,
        consistency: INITIAL_RATING,
        timing: INITIAL_RATING,
        risk_control: INITIAL_RATING,
        endurance: INITIAL_RATING,
        total_trades: 0,
        total_wins: 0,
        total_pnl: 0,
        avg_trade_size: 0,
        trading_days: 0,
        last_updated: unix_timestamp,
    }
}

/// Builds the record of a new profile.
pub fn handler(accounts: &InitializeProfile, bump: u8, unix_timestamp: i64) -> (profile:
    TraderProfile)
    ensures
        profile == new_profile(accounts.authority, bump, unix_timestamp),
{
    TraderProfile {
        authority: accounts.authority,
        bump,
        overall_rating: INITIAL_RATING,
        discipline: INITIAL_RATING,
        patience: INITIAL_RATING,
        consistency: INITIAL_RATING,
        timing: INITIAL_RATING,
        risk_control: INITIAL_RATING,
        endurance: INITIAL_RATING,
        total_trades: 0,
        total_wins: 0,
        total_pnl: 0,
        avg_trade_size: 0,
        trading_days: 0,
        last_updated: unix_timestamp,
    }
}

} // verus!
