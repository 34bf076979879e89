//! The periodic check of an order against its oracle feed and its clocks.

use vstd::prelude::*;
use crate::encoding::Pubkey;
use crate::ghost_bridge::constants::PYTH_RECEIVER_ID;
use crate::ghost_crank::instructions::execute_trigger::GhostCrankError;
use crate::ghost_crank::state::ghost_order::{GhostOrder, OrderStatus};
use crate::oracle::{feed_is_valid, feed_price, read_price, FeedFormat};

verus! {

/// Identities of the accounts the operation touches.
#[derive(Clone, Copy, Debug, PartialEq, Eq)]
pub struct CheckTrigger {
    pub ghost_order: Pubkey,
    pub price_feed: Pubkey,
}

/// How an accepted check ended.
#[derive(Clone, Copy, PartialEq, Eq, Debug, Structural)]
pub enum CheckOutcome {
    /// Nothing to check in the order's state; nothing changed.
    Skipped,
    /// The order had gone stale; it is now expired.
    Expired,
    /// The price satisfies the trigger; the order is now triggered.
    Triggered,
    /// The price does not satisfy the trigger; nothing changed.
    NotTriggered,
}

/// What the engine decides for a check.
pub ghost enum Verdict {
    Refuse(GhostCrankError),
    Skip,
    Expire,
    Trigger,
    Hold,
}

/// Whether a feed account passes every check of the poll-based layout.
pub open spec fn legacy_feed_is_valid(feed_owner: Pubkey, data: Seq<u8>) -> bool {
    feed_is_valid(FeedFormat::Legacy, PYTH_RECEIVER_ID@, feed_owner@, data)
}

/// The price a valid poll-based feed account carries.
pub open spec fn legacy_feed_price(data: Seq<u8>) -> i64 {
    feed_price(FeedFormat::Legacy, data)
}

/// Whether an order in a given state has gone stale: an active or
/// triggered order once its own expiry has passed, an armed order also
/// once its execution window has passed.
pub open spec fn is_stale(order: &GhostOrder, unix_timestamp: i64, slot: i64) -> bool {
    match order.status {
        OrderStatus::Active | OrderStatus::Triggered => order.spec_is_expired(unix_timestamp),
        OrderStatus::ReadyToExecute => order.spec_is_expired(unix_timestamp)
            || order.spec_is_ready_expired(slot),
        _ => false,
    }
}

/// What the engine decides for a check. Staleness is looked at first; the
/// feed is read for an active order only.
pub open spec fn verdict(
    order: &GhostOrder,
    feed_owner: Pubkey,
    feed_data: Seq<u8>,
    unix_timestamp: i64,
    slot: i64,
) -> Verdict {
    if is_stale(order, unix_timestamp, slot) {
        Verdict::Expire
    } else if order.status != OrderStatus::Active {
        Verdict::Skip
    } else if !legacy_feed_is_valid(feed_owner, feed_data) {
        Verdict::Refuse(GhostCrankError::InvalidPriceFeed)
    } else if order.trigger_condition.holds(
        order.trigger_price as int,
        legacy_feed_price(feed_data) as int,
    ) {
        Verdict::Trigger
    } else {
        Verdict::Hold
    }
}

/// Reads the price of a feed account in the poll-based layout: the account
/// must belong to the oracle system, hold at least 32 bytes and start with
/// an accepted marker; the price is the signed little-endian value at
/// offset 8. A malformed feed is an error, never a price of zero.
pub fn read_pyth_price(feed_owner: &Pubkey, data: &[u8]) -> (result: Result<i64, GhostCrankError>)
    ensures
        legacy_feed_is_valid(*feed_owner, data@) ==> result == Ok::<i64, GhostCrankError>(
            legacy_feed_price(data@),
        ),
        !legacy_feed_is_valid(*feed_owner, data@) ==> result == Err::<i64, GhostCrankError>(
            GhostCrankError::InvalidPriceFeed,
        ),
{
    match read_price(FeedFormat::Legacy, &PYTH_RECEIVER_ID, feed_owner, data) {
        Some(price) => Ok(price),
        None => Err(GhostCrankError::InvalidPriceFeed),
    }
}

/// Checks an order: a stale order expires; an active order is held
/// against the feed and becomes triggered when the price satisfies its
/// condition; anything else is passed over.
pub fn handler(
    order: &mut GhostOrder,
    feed_owner: &Pubkey,
    feed_data: &[u8],
    unix_timestamp: i64,
    slot: i64,
) -> (result: Result<CheckOutcome, GhostCrankError>)
    ensures
        final(order).status == old(order).status || old(order).status.may_become(
            final(order).status,
        ),
        match verdict(old(order), *feed_owner, feed_data@, unix_timestamp, slot) {
            Verdict::Refuse(error) => {
                &&& result == Err::<CheckOutcome, GhostCrankError>(error)
                &&& *final(order) == *old(order)
            },
            Verdict::Skip => {
                &&& result == Ok::<CheckOutcome, GhostCrankError>(CheckOutcome::Skipped)
                &&& *final(order) == *old(order)
            },
            Verdict::Expire => {
                &&& result == Ok::<CheckOutcome, GhostCrankError>(CheckOutcome::Expired)
                &&& *final(order) == (GhostOrder { status: OrderStatus::Expired, ..*old(order) })
            },
            Verdict::Trigger => {
                &&& result == Ok::<CheckOutcome, GhostCrankError>(CheckOutcome::Triggered)
                &&& *final(order) == (GhostOrder {
                    status: OrderStatus::Triggered,
                    triggered_at: unix_timestamp,
                    execution_price: legacy_feed_price(feed_data@),
                    ..*old(order)
                })
            },
            Verdict::Hold => {
                &&& result == Ok::<CheckOutcome, GhostCrankError>(CheckOutcome::NotTriggered)
                &&& *final(order) == *old(order)
            },
        },
{
    let stale = match order.status {
        OrderStatus::Active => order.is_expired(unix_timestamp),
        OrderStatus::Triggered => order.is_expired(unix_timestamp),
        OrderStatus::ReadyToExecute => order.is_expired(unix_timestamp) || order.is_ready_expired(
            slot,
        ),
        _ => false,
    };
    if stale {
        order.status = OrderStatus::Expired;
        return Ok(CheckOutcome::Expired);
    }
    if !order.is_active() {
        return Ok(CheckOutcome::Skipped);
    }
    let current_price = match read_pyth_price(feed_owner, feed_data) {
        Ok(price) => price,
        Err(e) => {
            return Err(e);
        },
    };
    if order.check_trigger(current_price) {
        order.status = OrderStatus::Triggered;
        order.triggered_at = unix_timestamp;
        order.execution_price = current_price;
        return Ok(CheckOutcome::Triggered);
    }
    Ok(CheckOutcome::NotTriggered)
}

} // verus!
