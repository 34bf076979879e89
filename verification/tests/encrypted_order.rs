use ghost_orders::ghost_bridge::state::{
    EncryptedOrder, EncryptedOrderStatus, ExecutorAuthority, MAX_ENCRYPTED_DATA_LEN,
};

#[test]
fn test_account_size() {
    assert_eq!(EncryptedOrder::LEN, 8 + 32 + 32 + 32 + 256 + 2 + 32 + 8 + 8 + 8 + 1 + 1 + 1);
    assert_eq!(EncryptedOrder::LEN, 421);
}

#[test]
fn test_status_transitions() {
    let order = EncryptedOrder {
        status: EncryptedOrderStatus::Active,
        ..Default::default()
    };
    assert!(order.is_active());
    assert!(!order.is_triggered());
}

#[test]
fn default_record_is_blank_and_active() {
    let order = EncryptedOrder::default();
    assert_eq!(order.owner, [0u8; 32]);
    assert_eq!(order.order_hash, [0u8; 32]);
    assert_eq!(order.encrypted_data, [0u8; MAX_ENCRYPTED_DATA_LEN]);
    assert_eq!(order.data_len, 0);
    assert_eq!(order.status, EncryptedOrderStatus::Active);
    assert_eq!(order.get_encrypted_data().len(), 0);
    assert!(!order.is_delegated);
}

#[test]
fn ciphertext_is_the_first_data_len_bytes() {
    let mut order = EncryptedOrder::default();
    order.encrypted_data[0] = 0xaa;
    order.encrypted_data[1] = 0xbb;
    order.encrypted_data[2] = 0xcc;
    order.data_len = 2;
    assert_eq!(order.get_encrypted_data(), &[0xaa, 0xbb]);
    order.status = EncryptedOrderStatus::Triggered;
    assert!(order.is_triggered());
    assert!(!order.is_active());
}

#[test]
fn status_wire_bytes_and_registry_size() {
    assert_eq!(EncryptedOrderStatus::Active.to_u8(), 0);
    assert_eq!(EncryptedOrderStatus::Triggered.to_u8(), 1);
    assert_eq!(EncryptedOrderStatus::Executed.to_u8(), 2);
    assert_eq!(EncryptedOrderStatus::Cancelled.to_u8(), 3);
    assert_eq!(EncryptedOrderStatus::default(), EncryptedOrderStatus::Active);
    assert_eq!(ExecutorAuthority::LEN, 8 + 32 + 8 + 1 + 1 + 512 + 1 + 128 + 1);
    assert_eq!(&ExecutorAuthority::SEED_PREFIX, b"executor");
    assert_eq!(&EncryptedOrder::SEED_PREFIX, b"encrypted_order");
}
