//! Every way a vault operation can fail.

use vstd::prelude::*;

verus! {

#[derive(Clone, Copy, PartialEq, Eq, Debug, Structural)]
pub enum VaultError {
    VaultLocked,
    LockoutNotExpired,
    TradeLimitExceeded,
    LossLimitExceeded,
    InsufficientFunds,
    InvalidAmount,
    VaultAlreadyInitialized,
    Unauthorized,
    InvalidLockoutDuration,
    ArithmeticOverflow,
    CooldownActive,
    ExceedsMaxPosition,
    SwapFailed,
    InvalidTokenAccount,
    InvalidJupiterProgram,
    SwapAlreadyInProgress,
    NoSwapInProgress,
}

} // verus!
