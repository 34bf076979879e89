//! Replacing a profile's statistics; ratings are capped at 99.

use vstd::prelude::*;
use crate::encoding::{bytes32_eq, Pubkey};
use crate::vault::errors::VaultError;
use crate::vault::state::trader_profile::{TraderProfile, MAX_RATING};

verus! {

#[derive(Clone, Copy, Debug, PartialEq, Eq)]
pub struct UpdateStatsArgs {
    pub discipline: u8,
    pub patience: u8,
    pub consistency: u8,
    pub timing: u8,
    pub risk_control: u8,
    pub endurance: u8,
    pub overall_rating: u8,
    pub total_trades: u32,
    pub total_wins: u32,
    pub total_pnl: i64,
    pub avg_trade_size: u64,
    pub trading_days: u16,
}

/// Identities of the accounts the operation touches.
#[derive(Clone, Copy, Debug, PartialEq, Eq)]
pub struct UpdateStats {
    pub authority: Pubkey,
    pub profile: Pubkey,
}

/// A rating as stored: the lesser of the value given and 99.
pub open spec fn capped(rating: u8) -> u8 {
    if rating <= MAX_RATING {
        rating
    } else {
        MAX_RATING
    }
}

/// The profile after an update made at `unix_timestamp`.
pub open spec fn updated(profile: &TraderProfile, args: &UpdateStatsArgs, unix_timestamp: i64) -> TraderProfile {
    TraderProfile {
        authority: profile.authority,
        bump: profile.bump,
        overall_rating: capped(args.overall_rating),
        discipline: capped(args.discipline),
        patience: capped(args.patience),
        consistency: capped(args.consistency),
        timing: capped(args.timing),
        risk_control: capped(args.risk_control),
        endurance: capped(args.endurance),
        total_trades: args.total_trades,
        total_wins: args.total_wins,
        total_pnl: args.total_pnl,
        avg_trade_size: args.avg_trade_size,
        trading_days: args.trading_days,
        last_updated: unix_timestamp,
    }
}

/// Caps a rating at 99.
pub fn cap_rating(rating: u8) -> (stored: u8)
    ensures
        stored == capped(rating),
{
    if rating <= MAX_RATING {
        rating
    } else {
        MAX_RATING
    }
}

/// Replaces the statistics on the authority's behalf; anyone else is
/// refused and the profile is left as it is.
pub fn handler(
    profile: &mut TraderProfile,
    accounts: &UpdateStats,
    args: &UpdateStatsArgs,
    unix_timestamp: i64,
) -> (result: Result<(), VaultError>)
    ensures
        old(profile).authority@ != accounts.authority@ ==> {
            &&& result == Err::<(), VaultError>(VaultError::Unauthorized)
            &&& *final(profile) == *old(profile)
        },
        old(profile).authority@ == accounts.authority@ ==> {
            &&& result is Ok
            &&& *final(profile) == updated(old(profile), args, unix_timestamp)
        },
{
    if !bytes32_eq(&profile.authority, &accounts.authority) {
        return Err(VaultError::Unauthorized);
    }
    profile.discipline = cap_rating(args.discipline);
    profile.patience = cap_rating(args.patience);
    profile.consistency = cap_rating(args.consistency);
    profile.timing = cap_rating(args.timing);
    profile.risk_control = cap_rating(args.risk_control);
    profile.endurance = cap_rating(args.endurance);
    profile.overall_rating = cap_rating(args.overall_rating);
    profile.total_trades = args.total_trades;
    profile.total_wins = args.total_wins;
    profile.total_pnl = args.total_pnl;
    profile.avg_trade_size = args.avg_trade_size;
    profile.trading_days = args.trading_days;
    profile.last_updated = unix_timestamp;
    Ok(())
}

} // verus!
