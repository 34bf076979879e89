use ghost_orders::ghost_bridge::state::{CompressedGhostOrder, OrderSide, TriggerCondition};

fn new_unique(tag: u8) -> [u8; 32] {
    let mut key = [0u8; 32];
    key[0] = tag;
    key[31] = 0x5a;
    key
}

#[test]
fn test_hash_deterministic() {
    let order = CompressedGhostOrder {
        owner: new_unique(1),
        order_id: 1,
        market_index: 0,
        trigger_price: 50000_000000,
        trigger_condition: TriggerCondition::Below,
        order_side: OrderSide::Short,
        base_asset_amount: 1_000000,
        reduce_only: true,
        expiry: 0,
        feed_id: [0u8; 32],
        salt: [1u8; 16],
    };

    let hash1 = order.compute_hash();
    let hash2 = order.compute_hash();

    assert_eq!(hash1, hash2);
}

#[test]
fn test_salt_affects_hash() {
    let order1 = CompressedGhostOrder {
        owner: new_unique(2),
        order_id: 1,
        market_index: 0,
        trigger_price: 180_000_000,
        trigger_condition: TriggerCondition::Below,
        order_side: OrderSide::Short,
        base_asset_amount: 1_000000,
        reduce_only: true,
        expiry: 0,
        feed_id: [0u8; 32],
        salt: [1u8; 16],
    };

    let order2 = CompressedGhostOrder {
        salt: [2u8; 16],
        ..order1.clone()
    };

    assert_ne!(order1.compute_hash(), order2.compute_hash());
}

#[test]
fn test_trigger_conditions() {
    let order = CompressedGhostOrder {
        trigger_price: 50000,
        trigger_condition: TriggerCondition::Below,
        ..Default::default()
    };

    assert!(order.check_trigger(49000));
    assert!(order.check_trigger(50000));
    assert!(!order.check_trigger(51000));

    let order_above = CompressedGhostOrder {
        trigger_price: 50000,
        trigger_condition: TriggerCondition::Above,
        ..Default::default()
    };

    assert!(!order_above.check_trigger(49000));
    assert!(order_above.check_trigger(50000));
    assert!(order_above.check_trigger(51000));
}

#[test]
fn serialization_lays_fields_out_in_order() {
    let mut feed_id = [0u8; 32];
    feed_id[0] = 0xfe;
    let order = CompressedGhostOrder {
        owner: new_unique(3),
        order_id: 0x0102030405060708,
        market_index: 0x0a0b,
        trigger_price: -2,
        trigger_condition: TriggerCondition::Below,
        order_side: OrderSide::Short,
        base_asset_amount: 1_000_000,
        reduce_only: true,
        expiry: 1_700_000_000,
        feed_id,
        salt: [7u8; 16],
    };

    let mut expected: Vec<u8> = Vec::new();
    expected.extend_from_slice(&order.owner);
    expected.extend_from_slice(&0x0102030405060708u64.to_le_bytes());
    expected.extend_from_slice(&0x0a0bu16.to_le_bytes());
    expected.extend_from_slice(&(-2i64).to_le_bytes());
    expected.push(1);
    expected.push(1);
    expected.extend_from_slice(&1_000_000u64.to_le_bytes());
    expected.push(1);
    expected.extend_from_slice(&1_700_000_000i64.to_le_bytes());
    expected.extend_from_slice(&feed_id);
    expected.extend_from_slice(&[7u8; 16]);

    let data = order.serialize();
    assert_eq!(data.len(), 117);
    assert_eq!(data, expected);
    assert_eq!(&data[42..50], &[0xfe, 0xff, 0xff, 0xff, 0xff, 0xff, 0xff, 0xff]);
}

#[test]
fn hash_is_blake3_of_the_serialization() {
    let order = CompressedGhostOrder {
        owner: new_unique(4),
        order_id: 9,
        market_index: 3,
        trigger_price: 180_000_000,
        trigger_condition: TriggerCondition::Above,
        order_side: OrderSide::Long,
        base_asset_amount: 5,
        reduce_only: false,
        expiry: 0,
        feed_id: [9u8; 32],
        salt: [1u8; 16],
    };

    let mut preimage: Vec<u8> = Vec::new();
    preimage.extend_from_slice(&order.owner);
    preimage.extend_from_slice(&9u64.to_le_bytes());
    preimage.extend_from_slice(&3u16.to_le_bytes());
    preimage.extend_from_slice(&180_000_000i64.to_le_bytes());
    preimage.push(0);
    preimage.push(0);
    preimage.extend_from_slice(&5u64.to_le_bytes());
    preimage.push(0);
    preimage.extend_from_slice(&0i64.to_le_bytes());
    preimage.extend_from_slice(&[9u8; 32]);
    preimage.extend_from_slice(&[1u8; 16]);

    let digest = order.compute_hash();
    assert_eq!(&digest, blake3::hash(&preimage).as_bytes());
    assert_ne!(&digest[..], &preimage[..32]);
}

#[test]
fn owner_affects_hash() {
    let order1 = CompressedGhostOrder {
        owner: new_unique(5),
        salt: [1u8; 16],
        ..Default::default()
    };
    let order2 = CompressedGhostOrder {
        owner: new_unique(6),
        ..order1.clone()
    };
    assert_ne!(order1.compute_hash(), order2.compute_hash());
}

#[test]
fn wire_bytes_of_conditions_and_sides() {
    assert_eq!(TriggerCondition::Above.to_u8(), 0);
    assert_eq!(TriggerCondition::Below.to_u8(), 1);
    assert_eq!(TriggerCondition::from_u8(0), Some(TriggerCondition::Above));
    assert_eq!(TriggerCondition::from_u8(1), Some(TriggerCondition::Below));
    assert_eq!(TriggerCondition::from_u8(2), None);
    assert_eq!(OrderSide::Long.to_u8(), 0);
    assert_eq!(OrderSide::Short.to_u8(), 1);
    assert_eq!(OrderSide::from_u8(0), Some(OrderSide::Long));
    assert_eq!(OrderSide::from_u8(1), Some(OrderSide::Short));
    assert_eq!(OrderSide::from_u8(255), None);
    assert_eq!(TriggerCondition::default(), TriggerCondition::Above);
    assert_eq!(OrderSide::default(), OrderSide::Long);
}

#[test]
fn expiry_is_strict_and_zero_never_expires() {
    let order = CompressedGhostOrder { expiry: 1000, ..Default::default() };
    assert!(!order.is_expired(999));
    assert!(!order.is_expired(1000));
    assert!(order.is_expired(1001));
    let never = CompressedGhostOrder { expiry: 0, ..Default::default() };
    assert!(!never.is_expired(i64::MAX));
    assert!(!never.is_expired(i64::MIN));
}

#[test]
fn default_order_is_blank() {
    let order = CompressedGhostOrder::default();
    assert_eq!(order.owner, [0u8; 32]);
    assert_eq!(order.order_id, 0);
    assert_eq!(order.market_index, 0);
    assert_eq!(order.trigger_price, 0);
    assert_eq!(order.trigger_condition, TriggerCondition::Above);
    assert_eq!(order.order_side, OrderSide::Long);
    assert_eq!(order.base_asset_amount, 0);
    assert!(!order.reduce_only);
    assert_eq!(order.expiry, 0);
    assert_eq!(order.feed_id, [0u8; 32]);
    assert_eq!(order.salt, [0u8; 16]);
    assert_eq!(order.serialize().len(), 117);
}
