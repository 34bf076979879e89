//! Reclaiming the storage of a ciphertext order that has reached a final
//! state.

use vstd::prelude::*;
use crate::encoding::{bytes32_eq, Pubkey};
use crate::ghost_bridge::errors::GhostBridgeError;
use crate::ghost_bridge::state::encrypted_order::{EncryptedOrder, EncryptedOrderStatus};

verus! {

/// Identities of the accounts the operation touches.
#[derive(Clone, Copy, Debug, PartialEq, Eq)]
pub struct CloseEncryptedOrder {
    pub owner: Pubkey,
    pub encrypted_order: Pubkey,
}

/// The record of a closed order.
#[derive(Clone, Copy, Debug, PartialEq, Eq)]
pub struct EncryptedOrderClosed {
    pub owner: Pubkey,
    pub order_hash: [u8; 32],
}

/// Why closing is refused, if it is.
pub open spec fn rejection(order: &EncryptedOrder, accounts: &CloseEncryptedOrder) -> Option<
    GhostBridgeError,
> {
    if order.owner@ != accounts.owner@ {
        Some(GhostBridgeError::Unauthorized)
    } else if !order.status.is_terminal() {
        Some(GhostBridgeError::InvalidOrderData)
    } else {
        None
    }
}

/// Decides whether the owner may close the order: only from `Executed` or
/// `Cancelled`. On success the host returns the storage to the owner.
pub fn handler(order: &EncryptedOrder, accounts: &CloseEncryptedOrder) -> (result: Result<
    EncryptedOrderClosed,
    GhostBridgeError,
>)
    ensures
        match rejection(order, accounts) {
            Some(error) => {
                &&& result matches Err(e)
                &&& e == error
            },
            None => {
                &&& result matches Ok(event)
                &&& event.owner == accounts.owner
                &&& event.order_hash == order.order_hash
            },
        },
{
    if !bytes32_eq(&order.owner, &accounts.owner) {
        return Err(GhostBridgeError::Unauthorized);
    }
    if !(order.status == EncryptedOrderStatus::Executed || order.status
        == EncryptedOrderStatus::Cancelled) {
        return Err(GhostBridgeError::InvalidOrderData);
    }
    Ok(EncryptedOrderClosed { owner: accounts.owner, order_hash: order.order_hash })
}

} // verus!
