//! Moving custody of a ciphertext order to the low-latency domain.

use vstd::prelude::*;
use crate::address::seeds_view;
use crate::encoding::{bytes32_eq, to_vec, Pubkey};
use crate::ghost_bridge::errors::GhostBridgeError;
use crate::ghost_bridge::state::encrypted_order::EncryptedOrder;
use crate::ghost_bridge::state::executor_authority::ExecutorAuthority;

verus! {

#[derive(Clone, Copy, Debug, PartialEq, Eq)]
pub struct DelegateEncryptedOrderArgs {
    pub order_hash: [u8; 32],
}

/// Identities of the accounts the operation touches.
#[derive(Clone, Copy, Debug, PartialEq, Eq)]
pub struct DelegateEncryptedOrder {
    pub payer: Pubkey,
    pub encrypted_order: Pubkey,
    pub executor_authority: Pubkey,
}

/// The record of a delegation.
#[derive(Clone, Copy, Debug, PartialEq, Eq)]
pub struct EncryptedOrderDelegated {
    pub owner: Pubkey,
    pub order_hash: [u8; 32],
}

/// The seeds under which the host delegates, and the event to publish.
#[derive(Clone, Debug, PartialEq, Eq)]
pub struct DelegateEncryptedOrderOutcome {
    pub seeds: Vec<Vec<u8>>,
    pub event: EncryptedOrderDelegated,
}

/// The seeds of a ciphertext order's derived address: the prefix, the
/// owner, the commitment.
pub open spec fn encrypted_order_seeds(owner: Pubkey, order_hash: [u8; 32]) -> Seq<Seq<u8>> {
    seq![EncryptedOrder::SEED_PREFIX@, owner@, order_hash@]
}

/// Checks that the payer owns the registry and hands back the seeds under
/// which the host delegates the order.
pub fn handler(
    registry: &ExecutorAuthority,
    accounts: &DelegateEncryptedOrder,
    args: &DelegateEncryptedOrderArgs,
) -> (result: Result<DelegateEncryptedOrderOutcome, GhostBridgeError>)
    ensures
        registry.owner@ != accounts.payer@ ==> {
            &&& result matches Err(e)
            &&& e == GhostBridgeError::Unauthorized
        },
        registry.owner@ == accounts.payer@ ==> {
            &&& result matches Ok(outcome)
            &&& seeds_view(outcome.seeds@) == encrypted_order_seeds(accounts.payer, args.order_hash)
            &&& outcome.event.owner == accounts.payer
            &&& outcome.event.order_hash == args.order_hash
        },
{
    if !bytes32_eq(&registry.owner, &accounts.payer) {
        return Err(GhostBridgeError::Unauthorized);
    }
    let mut seeds: Vec<Vec<u8>> = Vec::new();
    seeds.push(to_vec(EncryptedOrder::SEED_PREFIX.as_slice()));
    seeds.push(to_vec(accounts.payer.as_slice()));
    seeds.push(to_vec(args.order_hash.as_slice()));
    assert(seeds_view(seeds@) =~= encrypted_order_seeds(accounts.payer, args.order_hash));
    Ok(
        DelegateEncryptedOrderOutcome {
            seeds,
            event: EncryptedOrderDelegated { owner: accounts.payer, order_hash: args.order_hash },
        },
    )
}

} // verus!
