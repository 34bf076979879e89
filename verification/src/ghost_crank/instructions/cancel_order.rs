//! Cancelling an order that has not been triggered.

use vstd::prelude::*;
use crate::encoding::{bytes32_eq, Pubkey};
use crate::ghost_crank::state::ghost_order::{GhostOrder, OrderStatus};

verus! {

/// Identities of the accounts the operation touches.
#[derive(Clone, Copy, Debug, PartialEq, Eq)]
pub struct CancelOrder {
    pub owner: Pubkey,
    pub ghost_order: Pubkey,
}

#[derive(Clone, Copy, PartialEq, Eq, Debug, Structural)]
pub enum CancelError {
    NotOwner,
    OrderNotCancellable,
}

/// Why the cancellation is refused, if it is.
pub open spec fn rejection(order: &GhostOrder, accounts: &CancelOrder) -> Option<CancelError> {
    if order.owner@ != accounts.owner@ {
        Some(CancelError::NotOwner)
    } else if !(order.status == OrderStatus::Pending || order.status == OrderStatus::Active) {
        Some(CancelError::OrderNotCancellable)
    } else {
        None
    }
}

/// Cancels a pending or active order on its owner's behalf, or refuses
/// with no effect.
pub fn handler(order: &mut GhostOrder, accounts: &CancelOrder) -> (result: Result<(), CancelError>)
    ensures
        match rejection(old(order), accounts) {
            Some(error) => {
                &&& result == Err::<(), CancelError>(error)
                &&& *final(order) == *old(order)
            },
            None => {
                &&& result is Ok
                &&& *final(order) == (GhostOrder { status: OrderStatus::Cancelled, ..*old(order) })
                &&& old(order).status.may_become(final(order).status)
            },
        },
{
    if !bytes32_eq(&order.owner, &accounts.owner) {
        return Err(CancelError::NotOwner);
    }
    if !(order.status == OrderStatus::Pending || order.status == OrderStatus::Active) {
        return Err(CancelError::OrderNotCancellable);
    }
    order.status = OrderStatus::Cancelled;
    Ok(())
}

} // verus!
