//! Storing a ciphertext order beside its registered commitment.

use vstd::prelude::*;
use crate::encoding::{bytes32_eq, Pubkey};
use crate::ghost_bridge::errors::GhostBridgeError;
use crate::ghost_bridge::state::encrypted_order::{
    EncryptedOrder, EncryptedOrderStatus, MAX_ENCRYPTED_DATA_LEN,
};
use crate::ghost_bridge::state::executor_authority::ExecutorAuthority;

verus! {

#[derive(Clone, Debug, PartialEq, Eq)]
pub struct CreateEncryptedOrderArgs {
    pub order_hash: [u8; 32],
    pub encrypted_data: Vec<u8>,
    pub feed_id: [u8; 32],
}

/// Identities of the accounts the operation touches.
#[derive(Clone, Copy, Debug, PartialEq, Eq)]
pub struct CreateEncryptedOrder {
    pub owner: Pubkey,
    pub executor_authority: Pubkey,
    pub encrypted_order: Pubkey,
}

/// The record of a new ciphertext order.
#[derive(Clone, Copy, Debug, PartialEq, Eq)]
pub struct EncryptedOrderCreated {
    pub owner: Pubkey,
    pub order_hash: [u8; 32],
    pub feed_id: [u8; 32],
    pub created_at: i64,
}

/// A new record and the event that announces it.
#[derive(Clone, Debug, PartialEq, Eq)]
pub struct CreateEncryptedOrderOutcome {
    pub order: EncryptedOrder,
    pub event: EncryptedOrderCreated,
}

/// Why the order is refused, if it is; the checks are made in this order
/// and the first that fails decides.
pub open spec fn rejection(
    registry: &ExecutorAuthority,
    accounts: &CreateEncryptedOrder,
    args: &CreateEncryptedOrderArgs,
) -> Option<GhostBridgeError> {
    if registry.owner@ != accounts.owner@ {
        Some(GhostBridgeError::Unauthorized)
    } else if args.encrypted_data@.len() > 256 || args.encrypted_data@.len() == 0 {
        Some(GhostBridgeError::InvalidOrderData)
    } else if registry.hashes().contains(args.order_hash@) {
        Some(GhostBridgeError::OrderHashExists)
    } else if registry.order_hash_count >= 16 {
        Some(GhostBridgeError::MaxOrdersReached)
    } else {
        None
    }
}

/// The blob of a new record: the ciphertext, then zeros.
fn fill_blob(data: &Vec<u8>) -> (blob: [u8; 256])
    requires
        data@.len() <= 256,
    ensures
        blob@.subrange(0, data@.len() as int) == data@,
        forall|i: int| data@.len() <= i < 256 ==> blob@[i] == 0u8,
{
    let mut blob = [0u8; 256];
    let mut i: usize = 0;
    while i < data.len()
        invariant
            i <= data@.len() <= 256,
            forall|j: int| 0 <= j < i ==> blob@[j] == data@[j],
            forall|j: int| i <= j < 256 ==> blob@[j] == 0u8,
        decreases data@.len() - i,
    {
        blob[i] = data[i];
        i = i + 1;
    }
    assert(blob@.subrange(0, data@.len() as int) =~= data@);
    blob
}

/// Registers the commitment and creates the ciphertext record in the
/// `Active` state, or refuses with no effect.
pub fn handler(
    registry: &mut ExecutorAuthority,
    accounts: &CreateEncryptedOrder,
    args: &CreateEncryptedOrderArgs,
    bump: u8,
    unix_timestamp: i64,
) -> (result: Result<CreateEncryptedOrderOutcome, GhostBridgeError>)
    requires
        old(registry).wf(),
        old(registry).order_count < u64::MAX,
    ensures
        final(registry).wf(),
        match rejection(old(registry), accounts, args) {
            Some(error) => {
                &&& result matches Err(e)
                &&& e == error
                &&& *final(registry) == *old(registry)
            },
            None => {
                &&& result matches Ok(outcome)
                &&& final(registry).with_hash_added(old(registry), args.order_hash)
                &&& outcome.order.owner == accounts.owner
                &&& outcome.order.order_hash == args.order_hash
                &&& outcome.order.executor_authority == accounts.executor_authority
                &&& outcome.order.data_len == args.encrypted_data@.len()
                &&& outcome.order.ciphertext() == args.encrypted_data@
                &&& forall|i: int|
                    args.encrypted_data@.len() <= i < 256 ==> outcome.order.encrypted_data@[i]
                        == 0u8
                &&& outcome.order.feed_id == args.feed_id
                &&& outcome.order.created_at == unix_timestamp
                &&& outcome.order.triggered_at == 0
                &&& outcome.order.execution_price == 0
                &&& outcome.order.status == EncryptedOrderStatus::Active
                &&& !outcome.order.is_delegated
                &&& outcome.order.bump == bump
                &&& outcome.event.owner == accounts.owner
                &&& outcome.event.order_hash == args.order_hash
                &&& outcome.event.feed_id == args.feed_id
                &&& outcome.event.created_at == unix_timestamp
            },
        },
{
    if !bytes32_eq(&registry.owner, &accounts.owner) {
        return Err(GhostBridgeError::Unauthorized);
    }
    if args.encrypted_data.len() > MAX_ENCRYPTED_DATA_LEN {
        return Err(GhostBridgeError::InvalidOrderData);
    }
    if args.encrypted_data.len() == 0 {
        return Err(GhostBridgeError::InvalidOrderData);
    }
    match registry.add_order_hash(args.order_hash) {
        Ok(()) => {},
        Err(e) => {
            return Err(e);
        },
    }
    let order = EncryptedOrder {
        owner: accounts.owner,
        order_hash: args.order_hash,
        executor_authority: accounts.executor_authority,
        encrypted_data: fill_blob(&args.encrypted_data),
        data_len: args.encrypted_data.len() as u16,
        feed_id: args.feed_id,
        created_at: unix_timestamp,
        triggered_at: 0,
        execution_price: 0,
        status: EncryptedOrderStatus::Active,
        is_delegated: false,
        bump,
    };
    Ok(
        CreateEncryptedOrderOutcome {
            order,
            event: EncryptedOrderCreated {
                owner: accounts.owner,
                order_hash: args.order_hash,
                feed_id: args.feed_id,
                created_at: unix_timestamp,
            },
        },
    )
}

} // verus!
