//! Cancelling a ciphertext order: its commitment leaves the registry in
//! the same step that marks the record `Cancelled`.

use vstd::prelude::*;
use crate::encoding::{bytes32_eq, Pubkey};
use crate::ghost_bridge::errors::GhostBridgeError;
use crate::ghost_bridge::state::encrypted_order::{EncryptedOrder, EncryptedOrderStatus};
use crate::ghost_bridge::state::executor_authority::ExecutorAuthority;

verus! {

/// Identities of the accounts the operation touches.
#[derive(Clone, Copy, Debug, PartialEq, Eq)]
pub struct CancelEncryptedOrder {
    pub owner: Pubkey,
    pub encrypted_order: Pubkey,
    pub executor_authority: Pubkey,
}

/// The record of a cancellation.
#[derive(Clone, Copy, Debug, PartialEq, Eq)]
pub struct EncryptedOrderCancelled {
    pub owner: Pubkey,
    pub order_hash: [u8; 32],
}

/// Why the cancellation is refused, if it is; the checks are made in this
/// order and the first that fails decides.
pub open spec fn rejection(
    order: &EncryptedOrder,
    registry: &ExecutorAuthority,
    accounts: &CancelEncryptedOrder,
) -> Option<GhostBridgeError> {
    if order.owner@ != accounts.owner@ {
        Some(GhostBridgeError::Unauthorized)
    } else if order.status != EncryptedOrderStatus::Active {
        Some(GhostBridgeError::InvalidOrderData)
    } else if registry.owner@ != accounts.owner@ {
        Some(GhostBridgeError::Unauthorized)
    } else if !registry.hashes().contains(order.order_hash@) {
        Some(GhostBridgeError::OrderHashNotFound)
    } else {
        None
    }
}

/// Cancels an active order on its owner's behalf, or refuses with no
/// effect.
pub fn handler(
    order: &mut EncryptedOrder,
    registry: &mut ExecutorAuthority,
    accounts: &CancelEncryptedOrder,
) -> (result: Result<EncryptedOrderCancelled, GhostBridgeError>)
    requires
        old(registry).wf(),
    ensures
        final(registry).wf(),
        final(order).status.is_terminal() && !old(order).status.is_terminal()
            ==> !final(registry).hashes().contains(old(order).order_hash@),
        match rejection(old(order), old(registry), accounts) {
            Some(error) => {
                &&& result matches Err(e)
                &&& e == error
                &&& *final(registry) == *old(registry)
                &&& *final(order) == *old(order)
            },
            None => {
                &&& result matches Ok(event)
                &&& event.owner == accounts.owner
                &&& event.order_hash == old(order).order_hash
                &&& *final(order) == (EncryptedOrder {
                    status: EncryptedOrderStatus::Cancelled,
                    ..*old(order)
                })
                &&& final(registry).with_hash_removed(old(registry), old(order).order_hash@)
                &&& final(registry).is_delegated == old(registry).is_delegated
            },
        },
{
    if !bytes32_eq(&order.owner, &accounts.owner) {
        return Err(GhostBridgeError::Unauthorized);
    }
    if order.status != EncryptedOrderStatus::Active {
        return Err(GhostBridgeError::InvalidOrderData);
    }
    if !bytes32_eq(&registry.owner, &accounts.owner) {
        return Err(GhostBridgeError::Unauthorized);
    }
    match registry.remove_order_hash(order.order_hash) {
        Ok(()) => {},
        Err(e) => {
            return Err(e);
        },
    }
    order.status = EncryptedOrderStatus::Cancelled;
    Ok(EncryptedOrderCancelled { owner: accounts.owner, order_hash: order.order_hash })
}

} // verus!
