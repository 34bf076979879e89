//! Every way an operation on hash-committed or ciphertext orders can fail.

use vstd::prelude::*;

verus! {

#[derive(Clone, Copy, PartialEq, Eq, Debug, Structural)]
pub enum GhostBridgeError {
    ExecutorAlreadyInitialized,
    ExecutorNotFound,
    MaxOrdersReached,
    OrderHashExists,
    OrderHashNotFound,
    OrderHashMismatch,
    OrderExpired,
    TriggerConditionNotMet,
    InvalidTriggerCondition,
    Unauthorized,
    LightCpiFailed,
    DriftCpiFailed,
    MagicActionFailed,
    InvalidOrderData,
    ExecutorDelegated,
    ExecutorNotDelegated,
    EncryptedDataTooLong,
    OrderNotTriggered,
    OrderNotActive,
    CrankSchedulingFailed,
    ExecutorNotAuthorized,
    MaxExecutorsReached,
    InvalidPriceFeed,
}

} // verus!
