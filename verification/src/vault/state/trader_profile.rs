//! A trader's rating card.

use vstd::prelude::*;
use crate::encoding::Pubkey;

verus! {

/// The highest value a rating may take.
pub const MAX_RATING: u8 = 99;

/// The rating every new profile starts with.
pub const INITIAL_RATING: u8 = 50;

#[derive(Clone, Copy, Debug, PartialEq, Eq)]
pub struct TraderProfile {
    pub authority: Pubkey,
    pub bump: u8,
    pub overall_rating: u8,
    pub discipline: u8,
    pub patience: u8,
    pub consistency: u8,
    pub timing: u8,
    pub risk_control: u8,
    pub endurance: u8,
    pub total_trades: u32,
    pub total_wins: u32,
    pub total_pnl: i64,
    pub avg_trade_size: u64,
    pub trading_days: u16,
    pub last_updated: i64,
}

impl TraderProfile {
    /// Seed prefix of the profile's derived address: `trader_profile`.
    pub const SEED_PREFIX: [u8; 14] = [
        116, 114, 97, 100, 101, 114, 95, 112, 114, 111, 102, 105, 108, 101,
    ];

    /// Bytes the record's fields occupy in storage.
    pub const INIT_SPACE: usize = 32 + 1 + 1 + 1 + 1 + 1 + 1 + 1 + 1 + 4 + 4 + 8 + 8 + 2 + 8;
}

} // verus!
