use ghost_orders::ghost_bridge::constants::PYTH_RECEIVER_ID;
use ghost_orders::ghost_bridge::errors::GhostBridgeError;
use ghost_orders::ghost_bridge::instructions::check_price_update;
use ghost_orders::ghost_bridge::state::{EncryptedOrder, EncryptedOrderStatus};
use ghost_orders::ghost_crank::instructions::check_trigger;
use ghost_orders::ghost_crank::instructions::execute_trigger::GhostCrankError;
use ghost_orders::oracle::{read_price, FeedFormat, MAGIC_P2UV, MAGIC_PYTH};

fn feed(magic: [u8; 4], len: usize, offset: usize, price: i64) -> Vec<u8> {
    let mut data = vec![0u8; len];
    data[..4].copy_from_slice(&magic);
    data[offset..offset + 8].copy_from_slice(&price.to_le_bytes());
    data
}

#[test]
fn validated_feed_yields_price_at_offset_40() {
    let data = feed(MAGIC_PYTH, 64, 40, 180_000_000);
    assert_eq!(
        check_price_update::read_pyth_price(&PYTH_RECEIVER_ID, &data),
        Ok(180_000_000)
    );
    let data = feed(MAGIC_P2UV, 100, 40, -5);
    assert_eq!(check_price_update::read_pyth_price(&PYTH_RECEIVER_ID, &data), Ok(-5));
    assert_eq!(&MAGIC_PYTH, b"PYTH");
    assert_eq!(MAGIC_P2UV, [0x50, 0x32, 0x55, 0x56]);
}

#[test]
fn validated_feed_is_refused_on_each_failed_check() {
    let good = feed(MAGIC_PYTH, 64, 40, 1);
    let stranger = [9u8; 32];
    assert_eq!(
        check_price_update::read_pyth_price(&stranger, &good),
        Err(GhostBridgeError::InvalidPriceFeed)
    );
    let short = feed(MAGIC_PYTH, 63, 40, 1);
    assert_eq!(
        check_price_update::read_pyth_price(&PYTH_RECEIVER_ID, &short),
        Err(GhostBridgeError::InvalidPriceFeed)
    );
    let bad_magic = feed([0x50, 0x59, 0x54, 0x49], 64, 40, 1);
    assert_eq!(
        check_price_update::read_pyth_price(&PYTH_RECEIVER_ID, &bad_magic),
        Err(GhostBridgeError::InvalidPriceFeed)
    );
    assert_eq!(
        check_price_update::read_pyth_price(&PYTH_RECEIVER_ID, &[]),
        Err(GhostBridgeError::InvalidPriceFeed)
    );
}

#[test]
fn legacy_feed_yields_price_at_offset_8_and_never_zero_for_garbage() {
    let data = feed(MAGIC_PYTH, 32, 8, 49_000);
    assert_eq!(check_trigger::read_pyth_price(&PYTH_RECEIVER_ID, &data), Ok(49_000));
    let short = vec![0x50, 0x59, 0x54, 0x48, 0, 0, 0, 0];
    assert_eq!(
        check_trigger::read_pyth_price(&PYTH_RECEIVER_ID, &short),
        Err(GhostCrankError::InvalidPriceFeed)
    );
    let unmarked = vec![0u8; 32];
    assert_eq!(
        check_trigger::read_pyth_price(&PYTH_RECEIVER_ID, &unmarked),
        Err(GhostCrankError::InvalidPriceFeed)
    );
    assert_eq!(
        check_trigger::read_pyth_price(&[1u8; 32], &data),
        Err(GhostCrankError::InvalidPriceFeed)
    );
}

#[test]
fn formats_differ_in_threshold_and_offset() {
    assert_eq!(FeedFormat::Validated.min_len(), 64);
    assert_eq!(FeedFormat::Validated.price_offset(), 40);
    assert_eq!(FeedFormat::Legacy.min_len(), 32);
    assert_eq!(FeedFormat::Legacy.price_offset(), 8);
    let mut data = feed(MAGIC_P2UV, 64, 40, 7);
    data[8..16].copy_from_slice(&11i64.to_le_bytes());
    let owner = [3u8; 32];
    assert_eq!(read_price(FeedFormat::Validated, &owner, &owner, &data), Some(7));
    assert_eq!(read_price(FeedFormat::Legacy, &owner, &owner, &data), Some(11));
    assert_eq!(read_price(FeedFormat::Legacy, &owner, &[4u8; 32], &data), None);
    assert_eq!(read_price(FeedFormat::Validated, &owner, &owner, &data[..48]), None);
    assert_eq!(
        read_price(FeedFormat::Legacy, &owner, &owner, &feed(MAGIC_PYTH, 32, 8, i64::MIN)),
        Some(i64::MIN)
    );
}

#[test]
fn price_observation_passes_over_inactive_orders() {
    let data = feed(MAGIC_PYTH, 64, 40, 123);
    let mut order = EncryptedOrder::default();
    order.order_hash = [5u8; 32];
    order.feed_id = [6u8; 32];
    let seen = check_price_update::handler(&order, &PYTH_RECEIVER_ID, &data).unwrap();
    assert_eq!(
        seen,
        Some(check_price_update::PriceUpdateChecked {
            order_hash: [5u8; 32],
            feed_id: [6u8; 32],
            current_price: 123,
        })
    );
    assert_eq!(
        check_price_update::handler(&order, &[0u8; 32], &data),
        Err(GhostBridgeError::InvalidPriceFeed)
    );
    order.status = EncryptedOrderStatus::Executed;
    assert_eq!(check_price_update::handler(&order, &[0u8; 32], &[]), Ok(None));
}
