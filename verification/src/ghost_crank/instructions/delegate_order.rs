//! Moving custody of an order to the low-latency domain, and activating
//! it once the move is confirmed.

use vstd::prelude::*;
use vstd::bytes::spec_u64_to_le_bytes;
use crate::address::seeds_view;
use crate::encoding::{bytes32_eq, push_u64_le, to_vec, Pubkey};
use crate::ghost_crank::state::ghost_order::{GhostOrder, OrderStatus};

verus! {

/// Identities of the accounts the delegation touches.
#[derive(Clone, Copy, Debug, PartialEq, Eq)]
pub struct DelegateOrder {
    pub owner: Pubkey,
    pub ghost_order: Pubkey,
}

/// Identities of the accounts the activation touches.
#[derive(Clone, Copy, Debug, PartialEq, Eq)]
pub struct ActivateOrder {
    pub owner: Pubkey,
    pub ghost_order: Pubkey,
}

/// Why an activation is refused.
#[derive(Clone, Copy, PartialEq, Eq, Debug, Structural)]
pub enum ActivateError {
    /// The caller does not own the order.
    NotOwner,
    /// The order has left the `Pending` state.
    NotPending,
}

/// The seeds of an order's derived address: the prefix, the owner, the
/// order id little-endian.
pub open spec fn ghost_order_seeds(owner: Pubkey, order_id: u64) -> Seq<Seq<u8>> {
    seq![GhostOrder::SEED_PREFIX@, owner@, spec_u64_to_le_bytes(order_id)]
}

/// Builds the seeds of an order's derived address.
pub fn build_ghost_order_seeds(owner: &Pubkey, order_id: u64) -> (seeds: Vec<Vec<u8>>)
    ensures
        seeds_view(seeds@) == ghost_order_seeds(*owner, order_id),
{
    let mut order_id_bytes: Vec<u8> = Vec::new();
    push_u64_le(&mut order_id_bytes, order_id);
    assert(order_id_bytes@ =~= spec_u64_to_le_bytes(order_id));
    let mut seeds: Vec<Vec<u8>> = Vec::new();
    seeds.push(to_vec(GhostOrder::SEED_PREFIX.as_slice()));
    seeds.push(to_vec(owner.as_slice()));
    seeds.push(order_id_bytes);
    assert(seeds_view(seeds@) =~= ghost_order_seeds(*owner, order_id));
    seeds
}

/// The seeds under which the host delegates the signer's order.
pub fn handler(order: &GhostOrder, accounts: &DelegateOrder) -> (seeds: Vec<Vec<u8>>)
    ensures
        seeds_view(seeds@) == ghost_order_seeds(accounts.owner, order.order_id),
{
    build_ghost_order_seeds(&accounts.owner, order.order_id)
}

/// Activates a pending order on its owner's behalf, or refuses with no
/// effect.
pub fn activate_handler(order: &mut GhostOrder, accounts: &ActivateOrder) -> (result: Result<
    (),
    ActivateError,
>)
    ensures
        old(order).owner@ != accounts.owner@ ==> {
            &&& result == Err::<(), ActivateError>(ActivateError::NotOwner)
            &&& *final(order) == *old(order)
        },
        old(order).owner@ == accounts.owner@ && old(order).status != OrderStatus::Pending ==> {
            &&& result == Err::<(), ActivateError>(ActivateError::NotPending)
            &&& *final(order) == *old(order)
        },
        old(order).owner@ == accounts.owner@ && old(order).status == OrderStatus::Pending ==> {
            &&& result is Ok
            &&& *final(order) == (GhostOrder { status: OrderStatus::Active, ..*old(order) })
            &&& old(order).status.may_become(final(order).status)
        },
{
    if !bytes32_eq(&order.owner, &accounts.owner) {
        return Err(ActivateError::NotOwner);
    }
    if order.status != OrderStatus::Pending {
        return Err(ActivateError::NotPending);
    }
    order.status = OrderStatus::Active;
    Ok(())
}

} // verus!
