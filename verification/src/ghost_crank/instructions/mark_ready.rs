//! Arming a triggered order: the commitment to its parameters and a short
//! execution window are recorded; the parameters themselves are not
//! published again.

use vstd::prelude::*;
use crate::encoding::Pubkey;
use crate::ghost_crank::state::ghost_order::{GhostOrder, OrderStatus, READY_WINDOW_SLOTS};

verus! {

/// Identities of the accounts the operation touches.
#[derive(Clone, Copy, Debug, PartialEq, Eq)]
pub struct MarkReady {
    pub payer: Pubkey,
    pub ghost_order: Pubkey,
}

#[derive(Clone, Copy, PartialEq, Eq, Debug, Structural)]
pub enum MarkReadyError {
    NotTriggered,
    AlreadyReady,
}

/// The record of an order armed at `slot`.
pub open spec fn armed(order: &GhostOrder, execution_price: i64, slot: u64) -> GhostOrder
    recommends
        slot + READY_WINDOW_SLOTS <= i64::MAX,
{
    GhostOrder {
        status: OrderStatus::ReadyToExecute,
        execution_price,
        ready_expires_at: (slot + READY_WINDOW_SLOTS) as i64,
        ..*order
    }
}

/// Arming at tick `slot` opens a window that ends 100 ticks later, and is
/// a step the lifecycle allows from `Triggered` alone.
pub proof fn lemma_armed(order: &GhostOrder, execution_price: i64, slot: u64)
    requires
        slot + READY_WINDOW_SLOTS <= i64::MAX,
    ensures
        armed(order, execution_price, slot).status == OrderStatus::ReadyToExecute,
        armed(order, execution_price, slot).ready_expires_at == slot + 100,
        armed(order, execution_price, slot).execution_price == execution_price,
        armed(order, execution_price, slot).nonce == order.nonce,
        armed(order, execution_price, slot).params() == order.params(),
        order.status.may_become(OrderStatus::ReadyToExecute) <==> order.status
            == OrderStatus::Triggered,
{
}

/// Arms a triggered order: it becomes `ReadyToExecute`, its commitment is
/// the digest of its stored parameters and nonce, and its window ends 100
/// ticks after `slot`. An order in any other state is refused and left as
/// it is.
pub fn handler(order: &mut GhostOrder, execution_price: i64, slot: u64) -> (result: Result<
    (),
    MarkReadyError,
>)
    requires
        slot + READY_WINDOW_SLOTS <= i64::MAX,
    ensures
        old(order).status != OrderStatus::Triggered ==> {
            &&& result == Err::<(), MarkReadyError>(MarkReadyError::NotTriggered)
            &&& *final(order) == *old(order)
        },
        old(order).status == OrderStatus::Triggered ==> {
            &&& result is Ok
            &&& final(order).params_commitment@ == old(order).params().spec_commitment(
                old(order).nonce,
            )
            &&& *final(order) == (GhostOrder {
                params_commitment: final(order).params_commitment,
                ..armed(old(order), execution_price, slot)
            })
            &&& final(order).ready_expires_at == slot + 100
            &&& old(order).status.may_become(final(order).status)
        },
{
    if order.status != OrderStatus::Triggered {
        return Err(MarkReadyError::NotTriggered);
    }
    let params = order.order_params();
    order.params_commitment = params.commitment(order.nonce);
    order.status = OrderStatus::ReadyToExecute;
    order.execution_price = execution_price;
    order.ready_expires_at = slot as i64 + READY_WINDOW_SLOTS;
    Ok(())
}

} // verus!
