//! Creation of a commitment-reveal order.

use vstd::prelude::*;
use crate::address::program_address;
use crate::encoding::Pubkey;
use crate::ghost_crank::state::ghost_order::{
    GhostOrder, OrderSide, OrderStatus, TriggerCondition,
};

verus! {

/// The order to create. `expiry_seconds` counts from now; 0 or less means
/// the order never expires.
#[derive(Clone, Copy, Debug, PartialEq, Eq)]
pub struct CreateGhostOrderArgs {
    pub order_id: u64,
    pub market_index: u16,
    pub trigger_price: i64,
    pub trigger_condition: TriggerCondition,
    pub order_side: OrderSide,
    pub base_asset_amount: u64,
    pub reduce_only: bool,
    pub expiry_seconds: i64,
    pub feed_id: [u8; 32],
    pub params_commitment: [u8; 32],
    pub nonce: u64,
    pub drift_user: Pubkey,
}

/// Identities of the accounts the operation touches.
#[derive(Clone, Copy, Debug, PartialEq, Eq)]
pub struct CreateGhostOrder {
    pub owner: Pubkey,
    pub ghost_order: Pubkey,
}

/// The absolute expiry of an order created at `unix_timestamp`.
pub open spec fn expiry_at(unix_timestamp: i64, expiry_seconds: i64) -> int {
    if expiry_seconds > 0 {
        unix_timestamp + expiry_seconds
    } else {
        0
    }
}

/// The record of a new order: `Pending`, nothing observed yet, no
/// execution window open.
pub open spec fn new_order(
    accounts: &CreateGhostOrder,
    args: &CreateGhostOrderArgs,
    bump: u8,
    unix_timestamp: i64,
    delegate_pda: Pubkey,
    delegate_bump: u8,
) -> GhostOrder {
    GhostOrder {
        owner: accounts.owner,
        order_id: args.order_id,
        market_index: args.market_index,
        trigger_price: args.trigger_price,
        trigger_condition: args.trigger_condition,
        order_side: args.order_side,
        base_asset_amount: args.base_asset_amount,
        reduce_only: args.reduce_only,
        status: OrderStatus::Pending,
        created_at: unix_timestamp,
        triggered_at: 0,
        executed_at: 0,
        expiry: expiry_at(unix_timestamp, args.expiry_seconds) as i64,
        feed_id: args.feed_id,
        crank_task_id: 0,
        execution_price: 0,
        bump,
        params_commitment: args.params_commitment,
        nonce: args.nonce,
        ready_expires_at: 0,
        delegate_pda,
        delegate_bump,
        drift_user: args.drift_user,
    }
}

/// Builds the record of a new order around a delegate sub-identity that
/// has already been derived.
pub fn build(
    accounts: &CreateGhostOrder,
    args: &CreateGhostOrderArgs,
    bump: u8,
    unix_timestamp: i64,
    delegate_pda: Pubkey,
    delegate_bump: u8,
) -> (order: GhostOrder)
    requires
        expiry_at(unix_timestamp, args.expiry_seconds) <= i64::MAX,
    ensures
        order == new_order(accounts, args, bump, unix_timestamp, delegate_pda, delegate_bump),
{
    GhostOrder {
        owner: accounts.owner,
        order_id: args.order_id,
        market_index: args.market_index,
        trigger_price: args.trigger_price,
        trigger_condition: args.trigger_condition,
        order_side: args.order_side,
        base_asset_amount: args.base_asset_amount,
        reduce_only: args.reduce_only,
        status: OrderStatus::Pending,
        created_at: unix_timestamp,
        triggered_at: 0,
        executed_at: 0,
        expiry: if args.expiry_seconds > 0 {
            unix_timestamp + args.expiry_seconds
        } else {
            0
        },
        feed_id: args.feed_id,
        crank_task_id: 0,
        execution_price: 0,
        bump,
        params_commitment: args.params_commitment,
        nonce: args.nonce,
        ready_expires_at: 0,
        delegate_pda,
        delegate_bump,
        drift_user: args.drift_user,
    }
}

/// Creates the record of a new order, deriving the owner's delegate
/// sub-identity under `program_id`. There is no record where the address
/// search finds no sub-identity.
pub fn handler(
    accounts: &CreateGhostOrder,
    args: &CreateGhostOrderArgs,
    bump: u8,
    unix_timestamp: i64,
    program_id: &Pubkey,
) -> (created: Option<GhostOrder>)
    requires
        expiry_at(unix_timestamp, args.expiry_seconds) <= i64::MAX,
    ensures
        match program_address(GhostOrder::delegate_seeds(accounts.owner), program_id@) {
            None => created is None,
            Some((address, delegate_bump)) => {
                &&& created matches Some(order)
                &&& order.delegate_pda@ == address
                &&& order == new_order(
                    accounts,
                    args,
                    bump,
                    unix_timestamp,
                    order.delegate_pda,
                    delegate_bump,
                )
            },
        },
{
    match GhostOrder::derive_delegate_pda(&accounts.owner, program_id) {
        Some((delegate_pda, delegate_bump)) => Some(
            build(accounts, args, bump, unix_timestamp, delegate_pda, delegate_bump),
        ),
        None => None,
    }
}

} // verus!
