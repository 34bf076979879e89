//! The vault record and the guards computed from it.

use vstd::prelude::*;
use crate::encoding::Pubkey;
use crate::vault::errors::VaultError;

verus! {

/// Length of a trading session in seconds.
pub const SECONDS_PER_DAY: i64 = 86400;

#[derive(Clone, Copy, Debug, PartialEq, Eq)]
pub struct Vault {
    pub owner: Pubkey,
    pub bump: u8,
    pub is_locked: bool,
    pub lockout_until: i64,
    pub lockout_count: u32,
    pub lockout_duration: u32,
    pub daily_loss_limit: u64,
    pub max_trades_per_day: u8,
    pub trades_today: u8,
    pub session_start: i64,
    pub total_deposited: u64,
    pub total_withdrawn: u64,
    pub last_trade_was_loss: bool,
    pub last_trade_time: i64,
    pub cooldown_seconds: u32,
    pub swap_in_progress: bool,
    pub pending_swap_source_mint: Pubkey,
    pub pending_swap_dest_mint: Pubkey,
    pub pending_swap_amount_in: u64,
    pub pending_swap_min_out: u64,
    pub balance_before_swap: u64,
}

impl Vault {
    /// Seed prefix of the vault's derived address: `vault`.
    pub const SEED_PREFIX: [u8; 5] = [118, 97, 117, 108, 116];

    /// Bytes the record's fields occupy in storage.
    pub const INIT_SPACE: usize = 32 + 1 + 1 + 8 + 4 + 4 + 8 + 1 + 1 + 8 + 8 + 8 + 1 + 8 + 4 + 1
        + 32 + 32 + 8 + 8 + 8;

    /// Whether a lock is in force at `current_time`.
    pub open spec fn spec_is_currently_locked(&self, current_time: i64) -> bool {
        self.is_locked && current_time < self.lockout_until
    }

    /// Whether a full session has gone by since the session started.
    pub open spec fn spec_should_reset_session(&self, current_time: i64) -> bool {
        current_time - self.session_start >= SECONDS_PER_DAY
    }

    /// Whether the pause after a losing trade is still running.
    pub open spec fn spec_is_in_cooldown(&self, current_time: i64) -> bool {
        self.last_trade_was_loss && current_time < self.last_trade_time + self.cooldown_seconds
    }

    /// Whether the session clock can be read at `current_time` without
    /// leaving the range of the machine's integers.
    pub open spec fn clock_in_range(&self, current_time: i64) -> bool {
        &&& i64::MIN <= current_time - self.session_start <= i64::MAX
        &&& self.last_trade_was_loss ==> self.last_trade_time + self.cooldown_seconds <= i64::MAX
    }

    /// The record as the session rules leave it at `current_time`: a new
    /// session starts once a day has gone by.
    pub open spec fn rolled(&self, current_time: i64) -> Vault {
        if self.spec_should_reset_session(current_time) {
            Vault { trades_today: 0, session_start: current_time, ..*self }
        } else {
            *self
        }
    }

    /// Why no trade may start at `current_time`, if none may; the checks
    /// are made in this order and the first that fails decides.
    pub open spec fn trade_rejection(&self, current_time: i64, amount_in: u64, min_out: u64) -> Option<
        VaultError,
    > {
        if self.spec_is_currently_locked(current_time) {
            Some(VaultError::VaultLocked)
        } else if self.spec_is_in_cooldown(current_time) {
            Some(VaultError::CooldownActive)
        } else if self.trades_today >= self.max_trades_per_day {
            Some(VaultError::TradeLimitExceeded)
        } else if amount_in == 0 || min_out == 0 {
            Some(VaultError::InvalidAmount)
        } else {
            None
        }
    }

    /// Checks at run time that the session clock can be read at
    /// `current_time`.
    pub fn is_clock_in_range(&self, current_time: i64) -> (ok: bool)
        ensures
            ok == self.clock_in_range(current_time),
    {
        let session_ok = if self.session_start >= 0 {
            current_time >= i64::MIN + self.session_start
        } else {
            current_time <= i64::MAX + self.session_start
        };
        let cooldown_ok = !self.last_trade_was_loss || self.last_trade_time <= i64::MAX - (
        self.cooldown_seconds as i64);
        session_ok && cooldown_ok
    }

    #[verifier::when_used_as_spec(spec_is_currently_locked)]
    pub fn is_currently_locked(&self, current_time: i64) -> (locked: bool)
        ensures
            locked == self.spec_is_currently_locked(current_time),
    {
        self.is_locked && current_time < self.lockout_until
    }

    /// Starts a new session at `current_time`.
    pub fn reset_daily_counters(&mut self, current_time: i64)
        ensures
            *final(self) == (Vault { trades_today: 0, session_start: current_time, ..*old(self) }),
    {
        self.trades_today = 0;
        self.session_start = current_time;
    }

    pub fn should_reset_session(&self, current_time: i64) -> (reset: bool)
        requires
            i64::MIN <= current_time - self.session_start <= i64::MAX,
        ensures
            reset == self.spec_should_reset_session(current_time),
    {
        current_time - self.session_start >= SECONDS_PER_DAY
    }

    /// Counts one more trade in the session; a full counter is an error
    /// and stays as it is.
    pub fn increment_trade(&mut self) -> (result: Result<(), VaultError>)
        ensures
            old(self).trades_today == u8::MAX ==> {
                &&& result == Err::<(), VaultError>(VaultError::ArithmeticOverflow)
                &&& *final(self) == *old(self)
            },
            old(self).trades_today < u8::MAX ==> {
                &&& result is Ok
                &&& *final(self) == (Vault {
                    trades_today: (old(self).trades_today + 1) as u8,
                    ..*old(self)
                })
            },
    {
        if self.trades_today == u8::MAX {
            return Err(VaultError::ArithmeticOverflow);
        }
        self.trades_today = self.trades_today + 1;
        Ok(())
    }

    pub fn is_in_cooldown(&self, current_time: i64) -> (cooling: bool)
        requires
            self.last_trade_was_loss ==> self.last_trade_time + self.cooldown_seconds <= i64::MAX,
        ensures
            cooling == self.spec_is_in_cooldown(current_time),
    {
        self.last_trade_was_loss && current_time < self.last_trade_time + (
        self.cooldown_seconds as i64)
    }

    /// Applies the session rules and the pre-trade guards at
    /// `current_time`. The session roll-over stays even where a guard then
    /// refuses the trade; the caller discards it with the rest of the
    /// refused operation.
    pub fn enforce_trade_rules(&mut self, current_time: i64, amount_in: u64, min_out: u64) -> (result:
        Result<(), VaultError>)
        requires
            old(self).clock_in_range(current_time),
        ensures
            *final(self) == old(self).rolled(current_time),
            match old(self).rolled(current_time).trade_rejection(current_time, amount_in, min_out) {
                Some(error) => result == Err::<(), VaultError>(error),
                None => result is Ok,
            },
    {
        if self.should_reset_session(current_time) {
            self.reset_daily_counters(current_time);
        }
        if self.is_currently_locked(current_time) {
            return Err(VaultError::VaultLocked);
        }
        if self.is_in_cooldown(current_time) {
            return Err(VaultError::CooldownActive);
        }
        if !(self.trades_today < self.max_trades_per_day) {
            return Err(VaultError::TradeLimitExceeded);
        }
        if !(amount_in > 0 && min_out > 0) {
            return Err(VaultError::InvalidAmount);
        }
        Ok(())
    }
}

} // verus!
