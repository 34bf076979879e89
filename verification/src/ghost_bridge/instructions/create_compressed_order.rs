//! Committing to an order: only the digest of its parameters is stored.

use vstd::prelude::*;
use crate::encoding::{bytes32_eq, Pubkey};
use crate::ghost_bridge::errors::GhostBridgeError;
use crate::ghost_bridge::instructions::consume_and_execute::{condition_of, side_of};
use crate::ghost_bridge::state::compressed_order::{
    CompressedGhostOrder, OrderSide, TriggerCondition,
};
use crate::ghost_bridge::state::executor_authority::{
    add_outcome, lemma_push_keeps_distinct, ExecutorAuthority,
};

verus! {

/// The order to commit to. `expiry_seconds` counts from now; 0 or less
/// means the order never expires.
#[derive(Clone, Debug, PartialEq, Eq)]
pub struct CreateCompressedOrderArgs {
    pub order_id: u64,
    pub market_index: u16,
    pub trigger_price: i64,
    pub trigger_condition: u8,
    pub order_side: u8,
    pub base_asset_amount: u64,
    pub reduce_only: bool,
    pub expiry_seconds: i64,
    pub feed_id: [u8; 32],
    pub salt: [u8; 16],
}

/// Identities of the accounts the operation touches.
#[derive(Clone, Copy, Debug, PartialEq, Eq)]
pub struct CreateCompressedOrder {
    pub owner: Pubkey,
    pub executor_authority: Pubkey,
}

/// The record of a new commitment.
#[derive(Clone, Copy, Debug, PartialEq, Eq)]
pub struct CompressedOrderCreated {
    pub owner: Pubkey,
    pub order_id: u64,
    pub order_hash: [u8; 32],
    pub market_index: u16,
}

/// The absolute expiry of an order created at `unix_timestamp`.
pub open spec fn expiry_at(unix_timestamp: i64, expiry_seconds: i64) -> int {
    if expiry_seconds > 0 {
        unix_timestamp + expiry_seconds
    } else {
        0
    }
}

impl CreateCompressedOrderArgs {
    /// The order these arguments describe, as owned by `owner` and created
    /// at `unix_timestamp`.
    pub open spec fn order(&self, owner: Pubkey, unix_timestamp: i64) -> CompressedGhostOrder {
        CompressedGhostOrder {
            owner,
            order_id: self.order_id,
            market_index: self.market_index,
            trigger_price: self.trigger_price,
            trigger_condition: condition_of(self.trigger_condition),
            order_side: side_of(self.order_side),
            base_asset_amount: self.base_asset_amount,
            reduce_only: self.reduce_only,
            expiry: expiry_at(unix_timestamp, self.expiry_seconds) as i64,
            feed_id: self.feed_id,
            salt: self.salt,
        }
    }
}

/// Why the commitment is refused, if it is; the checks are made in this
/// order and the first that fails decides.
pub open spec fn rejection(
    registry: &ExecutorAuthority,
    accounts: &CreateCompressedOrder,
    args: &CreateCompressedOrderArgs,
    unix_timestamp: i64,
) -> Option<GhostBridgeError> {
    if registry.owner@ != accounts.owner@ {
        Some(GhostBridgeError::Unauthorized)
    } else if args.trigger_condition > 1 {
        Some(GhostBridgeError::InvalidTriggerCondition)
    } else if args.order_side > 1 {
        Some(GhostBridgeError::InvalidOrderData)
    } else if registry.hashes().contains(args.order(accounts.owner, unix_timestamp).spec_hash()) {
        Some(GhostBridgeError::OrderHashExists)
    } else if registry.order_hash_count >= 16 {
        Some(GhostBridgeError::MaxOrdersReached)
    } else {
        None
    }
}

/// A commitment by the registry's owner, with well-formed wire bytes, that
/// is not pending yet is accepted while the registry has room: its digest
/// is appended behind the pending ones. Only the digest is kept; the
/// registry has no place for the parameters.
pub proof fn lemma_commit_accepted(
    registry: &ExecutorAuthority,
    accounts: &CreateCompressedOrder,
    args: &CreateCompressedOrderArgs,
    unix_timestamp: i64,
)
    requires
        registry.wf(),
        registry.owner@ == accounts.owner@,
        args.trigger_condition <= 1,
        args.order_side <= 1,
        registry.order_hash_count < 16,
        !registry.hashes().contains(args.order(accounts.owner, unix_timestamp).spec_hash()),
    ensures
        rejection(registry, accounts, args, unix_timestamp) is None,
        ({
            let hash = args.order(accounts.owner, unix_timestamp).spec_hash();
            let grown = registry.hashes().push(hash);
            &&& add_outcome(registry.hashes(), hash) == Ok::<Seq<Seq<u8>>, GhostBridgeError>(
                grown,
            )
            &&& grown.len() == registry.order_hash_count + 1
            &&& grown[registry.order_hash_count as int] == hash
            &&& grown.contains(hash)
            &&& grown.no_duplicates()
            &&& forall|i: int| 0 <= i < registry.order_hash_count ==> grown[i] == registry.hashes()[i]
        }),
{
    let hash = args.order(accounts.owner, unix_timestamp).spec_hash();
    lemma_push_keeps_distinct(registry.hashes(), hash);
    assert(registry.hashes().push(hash)[registry.order_hash_count as int] == hash);
}

/// Registers the commitment to a new order, or refuses with no effect.
pub fn handler(
    registry: &mut ExecutorAuthority,
    accounts: &CreateCompressedOrder,
    args: &CreateCompressedOrderArgs,
    unix_timestamp: i64,
) -> (result: Result<CompressedOrderCreated, GhostBridgeError>)
    requires
        old(registry).wf(),
        old(registry).order_count < u64::MAX,
        expiry_at(unix_timestamp, args.expiry_seconds) <= i64::MAX,
    ensures
        final(registry).wf(),
        match rejection(old(registry), accounts, args, unix_timestamp) {
            Some(error) => {
                &&& result matches Err(e)
                &&& e == error
                &&& *final(registry) == *old(registry)
            },
            None => {
                let hash = args.order(accounts.owner, unix_timestamp).spec_hash();
                &&& result matches Ok(event)
                &&& event.owner == accounts.owner
                &&& event.order_id == args.order_id
                &&& event.order_hash@ == hash
                &&& event.market_index == args.market_index
                &&& final(registry).with_hash_added(old(registry), event.order_hash)
                &&& final(registry).hashes() == old(registry).hashes().push(hash)
                &&& final(registry).hashes()[old(registry).order_hash_count as int] == hash
                &&& final(registry).hashes().contains(hash)
                &&& final(registry).order_hash_count == old(registry).order_hash_count + 1
                &&& final(registry).order_count == old(registry).order_count + 1
            },
        },
{
    if !bytes32_eq(&registry.owner, &accounts.owner) {
        return Err(GhostBridgeError::Unauthorized);
    }
    let trigger_condition = match TriggerCondition::from_u8(args.trigger_condition) {
        Some(condition) => condition,
        None => {
            return Err(GhostBridgeError::InvalidTriggerCondition);
        },
    };
    let order_side = match OrderSide::from_u8(args.order_side) {
        Some(side) => side,
        None => {
            return Err(GhostBridgeError::InvalidOrderData);
        },
    };
    let expiry: i64 = if args.expiry_seconds > 0 {
        unix_timestamp + args.expiry_seconds
    } else {
        0
    };
    let order = CompressedGhostOrder {
        owner: accounts.owner,
        order_id: args.order_id,
        market_index: args.market_index,
        trigger_price: args.trigger_price,
        trigger_condition,
        order_side,
        base_asset_amount: args.base_asset_amount,
        reduce_only: args.reduce_only,
        expiry,
        feed_id: args.feed_id,
        salt: args.salt,
    };
    assert(order == args.order(accounts.owner, unix_timestamp));
    let order_hash = order.compute_hash();
    match registry.add_order_hash(order_hash) {
        Ok(()) => {},
        Err(e) => {
            return Err(e);
        },
    }
    proof {
        let before = old(registry).hashes();
        assert(before.push(order_hash@)[before.len() as int] == order_hash@);
    }
    Ok(
        CompressedOrderCreated {
            owner: accounts.owner,
            order_id: args.order_id,
            order_hash,
            market_index: args.market_index,
        },
    )
}

} // verus!
