//! Observing the oracle for an active ciphertext order without changing
//! it.

use vstd::prelude::*;
use crate::encoding::Pubkey;
use crate::ghost_bridge::constants::PYTH_RECEIVER_ID;
use crate::ghost_bridge::errors::GhostBridgeError;
use crate::ghost_bridge::state::encrypted_order::{EncryptedOrder, EncryptedOrderStatus};
use crate::oracle::{feed_is_valid, feed_price, read_price, FeedFormat};

verus! {

/// Identities of the accounts the operation touches.
#[derive(Clone, Copy, Debug, PartialEq, Eq)]
pub struct CheckPriceUpdate {
    pub encrypted_order: Pubkey,
    pub price_feed: Pubkey,
}

/// The record of an observed price.
#[derive(Clone, Copy, Debug, PartialEq, Eq)]
pub struct PriceUpdateChecked {
    pub order_hash: [u8; 32],
    pub feed_id: [u8; 32],
    pub current_price: i64,
}

/// Whether a feed account passes every check of the validated layout.
pub open spec fn pyth_feed_is_valid(feed_owner: Pubkey, data: Seq<u8>) -> bool {
    feed_is_valid(FeedFormat::Validated, PYTH_RECEIVER_ID@, feed_owner@, data)
}

/// The price a valid feed account carries.
pub open spec fn pyth_feed_price(data: Seq<u8>) -> i64 {
    feed_price(FeedFormat::Validated, data)
}

/// Reads the price of a feed account in the validated layout: the account
/// must belong to the oracle system, hold at least 64 bytes and start with
/// an accepted marker; the price is the signed little-endian value at
/// offset 40.
pub fn read_pyth_price(feed_owner: &Pubkey, data: &[u8]) -> (result: Result<i64, GhostBridgeError>)
    ensures
        pyth_feed_is_valid(*feed_owner, data@) ==> result == Ok::<i64, GhostBridgeError>(
            pyth_feed_price(data@),
        ),
        !pyth_feed_is_valid(*feed_owner, data@) ==> result == Err::<i64, GhostBridgeError>(
            GhostBridgeError::InvalidPriceFeed,
        ),
{
    match read_price(FeedFormat::Validated, &PYTH_RECEIVER_ID, feed_owner, data) {
        Some(price) => Ok(price),
        None => Err(GhostBridgeError::InvalidPriceFeed),
    }
}

/// Observes the price for an order. An order that is not active is passed
/// over without reading the feed; for an active one the feed must be valid.
pub fn handler(order: &EncryptedOrder, feed_owner: &Pubkey, feed_data: &[u8]) -> (result: Result<
    Option<PriceUpdateChecked>,
    GhostBridgeError,
>)
    ensures
        order.status != EncryptedOrderStatus::Active ==> result == Ok::<
            Option<PriceUpdateChecked>,
            GhostBridgeError,
        >(None),
        order.status == EncryptedOrderStatus::Active && !pyth_feed_is_valid(
            *feed_owner,
            feed_data@,
        ) ==> result == Err::<Option<PriceUpdateChecked>, GhostBridgeError>(
            GhostBridgeError::InvalidPriceFeed,
        ),
        order.status == EncryptedOrderStatus::Active && pyth_feed_is_valid(
            *feed_owner,
            feed_data@,
        ) ==> result == Ok::<Option<PriceUpdateChecked>, GhostBridgeError>(
            Some(
                PriceUpdateChecked {
                    order_hash: order.order_hash,
                    feed_id: order.feed_id,
                    current_price: pyth_feed_price(feed_data@),
                },
            ),
        ),
{
    if order.status != EncryptedOrderStatus::Active {
        return Ok(None);
    }
    let current_price = match read_pyth_price(feed_owner, feed_data) {
        Ok(price) => price,
        Err(e) => {
            return Err(e);
        },
    };
    Ok(
        Some(
            PriceUpdateChecked {
                order_hash: order.order_hash,
                feed_id: order.feed_id,
                current_price,
            },
        ),
    )
}

} // verus!
