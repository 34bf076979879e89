use ghost_orders::actions::{CommitType, MagicAction, UndelegateType};
use ghost_orders::ghost_bridge::constants::PYTH_RECEIVER_ID;
use ghost_orders::ghost_bridge::drift_cpi::build_drift_place_perp_order;
use ghost_orders::ghost_bridge::errors::GhostBridgeError;
use ghost_orders::ghost_bridge::instructions::{
    authorize_executor, cancel_encrypted_order, close_encrypted_order, consume_and_execute,
    create_compressed_order, create_encrypted_order, delegate_encrypted_order, delegate_executor,
    init_executor, trigger_and_execute, undelegate_executor,
};
use ghost_orders::ghost_bridge::state::{
    CompressedGhostOrder, EncryptedOrder, EncryptedOrderStatus, ExecutorAuthority, OrderSide,
    TriggerCondition,
};

const OWNER: [u8; 32] = [0x01; 32];
const PAYER: [u8; 32] = [0x02; 32];
const REGISTRY_KEY: [u8; 32] = [0x03; 32];
const ORDER_KEY: [u8; 32] = [0x04; 32];
const NOW: i64 = 1_700_000_000;

fn registry() -> ExecutorAuthority {
    init_executor::handler(
        &init_executor::InitExecutor { owner: OWNER, executor_authority: REGISTRY_KEY },
        254,
    )
}

fn create_args(salt: [u8; 16]) -> create_compressed_order::CreateCompressedOrderArgs {
    create_compressed_order::CreateCompressedOrderArgs {
        order_id: 1,
        market_index: 7,
        trigger_price: 50_000,
        trigger_condition: 1,
        order_side: 0,
        base_asset_amount: 1_000_000_000,
        reduce_only: false,
        expiry_seconds: 0,
        feed_id: [9u8; 32],
        salt,
    }
}

fn revealed(salt: [u8; 16], price: i64) -> consume_and_execute::ConsumeAndExecuteArgs {
    consume_and_execute::ConsumeAndExecuteArgs {
        order_id: 1,
        market_index: 7,
        trigger_price: 50_000,
        trigger_condition: 1,
        order_side: 0,
        base_asset_amount: 1_000_000_000,
        reduce_only: false,
        expiry: 0,
        feed_id: [9u8; 32],
        salt,
        current_price: price,
        keep_delegated: false,
    }
}

fn consume_accounts() -> consume_and_execute::ConsumeAndExecute {
    consume_and_execute::ConsumeAndExecute {
        payer: PAYER,
        executor_authority: REGISTRY_KEY,
        drift_state: [0x10; 32],
        drift_user: [0x11; 32],
        drift_user_stats: [0x12; 32],
        drift_authority: [0x13; 32],
        perp_market: [0x14; 32],
        oracle: [0x15; 32],
        magic_context: [0x16; 32],
        magic_program: [0x17; 32],
    }
}

fn create_accounts() -> create_compressed_order::CreateCompressedOrder {
    create_compressed_order::CreateCompressedOrder { owner: OWNER, executor_authority: REGISTRY_KEY }
}

#[test]
fn new_registry_is_empty() {
    let registry = registry();
    assert_eq!(registry.owner, OWNER);
    assert_eq!(registry.bump, 254);
    assert_eq!(registry.order_count, 0);
    assert_eq!(registry.order_hash_count, 0);
    assert_eq!(registry.executor_count, 0);
    assert!(!registry.is_delegated);
    assert_eq!(registry.order_hashes, [[0u8; 32]; 16]);
    assert_eq!(registry.authorized_executors, [[0u8; 32]; 4]);
}

#[test]
fn end_to_end_commit_then_execute() {
    let mut registry = registry();
    registry.is_delegated = true;
    let created =
        create_compressed_order::handler(&mut registry, &create_accounts(), &create_args([0xaa; 16]), NOW)
            .unwrap();
    let committed = CompressedGhostOrder {
        owner: OWNER,
        order_id: 1,
        market_index: 7,
        trigger_price: 50_000,
        trigger_condition: TriggerCondition::Below,
        order_side: OrderSide::Long,
        base_asset_amount: 1_000_000_000,
        reduce_only: false,
        expiry: 0,
        feed_id: [9u8; 32],
        salt: [0xaa; 16],
    };
    let h1 = committed.compute_hash();
    assert_eq!(created.order_hash, h1);
    assert_eq!(created.owner, OWNER);
    assert_eq!(created.order_id, 1);
    assert_eq!(created.market_index, 7);
    assert!(registry.has_order_hash(&h1));
    assert_eq!(registry.order_count, 1);

    // Right parameters, wrong salt: the recomputed hash is not the pending one.
    let before = registry.clone();
    assert_eq!(
        consume_and_execute::handler(&mut registry, &consume_accounts(), &revealed([0xab; 16], 49_000), NOW)
            .unwrap_err(),
        GhostBridgeError::OrderHashMismatch
    );
    assert_eq!(registry, before);

    // Right salt, price above a Below trigger.
    assert_eq!(
        consume_and_execute::handler(&mut registry, &consume_accounts(), &revealed([0xaa; 16], 50_001), NOW)
            .unwrap_err(),
        GhostBridgeError::TriggerConditionNotMet
    );
    assert_eq!(registry, before);

    let outcome =
        consume_and_execute::handler(&mut registry, &consume_accounts(), &revealed([0xaa; 16], 50_000), NOW)
            .unwrap();
    assert!(!registry.has_order_hash(&h1));
    assert_eq!(registry.order_hash_count, 0);
    assert_eq!(registry.order_count, 1);
    assert!(!registry.is_delegated);
    assert_eq!(outcome.event.order_hash, h1);
    assert_eq!(outcome.event.execution_price, 50_000);
    assert_eq!(outcome.event.market_index, 7);
    match outcome.action {
        MagicAction::CommitAndUndelegate(both) => {
            assert_eq!(both.undelegate_type, UndelegateType::Standalone);
            match both.commit_type {
                CommitType::WithHandler { commited_accounts, call_handlers } => {
                    assert_eq!(commited_accounts, vec![REGISTRY_KEY]);
                    assert_eq!(call_handlers.len(), 1);
                    assert_eq!(
                        call_handlers[0].args.data,
                        build_drift_place_perp_order(7, OrderSide::Long, 1_000_000_000, false)
                    );
                    assert_eq!(call_handlers[0].escrow_authority, PAYER);
                    assert_eq!(call_handlers[0].accounts[2].pubkey, [0x13; 32]);
                    assert_eq!(call_handlers[0].accounts[3].pubkey, [0x12; 32]);
                }
                other => panic!("unexpected commit {:?}", other),
            }
        }
        other => panic!("unexpected action {:?}", other),
    }

    // A second execution finds no pending commitment that matches.
    assert_eq!(
        consume_and_execute::handler(&mut registry, &consume_accounts(), &revealed([0xaa; 16], 50_000), NOW)
            .unwrap_err(),
        GhostBridgeError::OrderHashMismatch
    );
}

#[test]
fn keeping_custody_commits_without_handing_back() {
    let mut registry = registry();
    registry.is_delegated = true;
    create_compressed_order::handler(&mut registry, &create_accounts(), &create_args([1; 16]), NOW).unwrap();
    let mut args = revealed([1; 16], 1);
    args.keep_delegated = true;
    let outcome = consume_and_execute::handler(&mut registry, &consume_accounts(), &args, NOW).unwrap();
    assert!(registry.is_delegated);
    assert!(matches!(outcome.action, MagicAction::Commit(CommitType::WithHandler { .. })));
}

#[test]
fn reveal_is_checked_in_order() {
    let mut registry = registry();
    let mut args = create_args([1; 16]);
    args.expiry_seconds = 100;
    create_compressed_order::handler(&mut registry, &create_accounts(), &args, NOW).unwrap();
    let before = registry.clone();

    let mut bad = revealed([1; 16], 1);
    bad.expiry = NOW + 100;
    bad.trigger_condition = 2;
    bad.order_side = 2;
    assert_eq!(
        consume_and_execute::handler(&mut registry, &consume_accounts(), &bad, NOW).unwrap_err(),
        GhostBridgeError::InvalidTriggerCondition
    );
    bad.trigger_condition = 1;
    assert_eq!(
        consume_and_execute::handler(&mut registry, &consume_accounts(), &bad, NOW).unwrap_err(),
        GhostBridgeError::InvalidOrderData
    );
    bad.order_side = 0;
    bad.current_price = 60_000;
    assert_eq!(
        consume_and_execute::handler(&mut registry, &consume_accounts(), &bad, NOW + 101).unwrap_err(),
        GhostBridgeError::OrderExpired
    );
    assert_eq!(
        consume_and_execute::handler(&mut registry, &consume_accounts(), &bad, NOW + 100).unwrap_err(),
        GhostBridgeError::TriggerConditionNotMet
    );
    assert_eq!(registry, before);
    bad.current_price = 50_000;
    assert!(consume_and_execute::handler(&mut registry, &consume_accounts(), &bad, NOW + 100).is_ok());
}

#[test]
fn commitment_is_refused_in_order() {
    let mut registry = registry();
    let stranger = create_compressed_order::CreateCompressedOrder {
        owner: [0x77; 32],
        executor_authority: REGISTRY_KEY,
    };
    let mut args = create_args([1; 16]);
    args.trigger_condition = 9;
    args.order_side = 9;
    assert_eq!(
        create_compressed_order::handler(&mut registry, &stranger, &args, NOW).unwrap_err(),
        GhostBridgeError::Unauthorized
    );
    assert_eq!(
        create_compressed_order::handler(&mut registry, &create_accounts(), &args, NOW).unwrap_err(),
        GhostBridgeError::InvalidTriggerCondition
    );
    args.trigger_condition = 0;
    assert_eq!(
        create_compressed_order::handler(&mut registry, &create_accounts(), &args, NOW).unwrap_err(),
        GhostBridgeError::InvalidOrderData
    );
    args.order_side = 1;
    assert!(create_compressed_order::handler(&mut registry, &create_accounts(), &args, NOW).is_ok());
    assert_eq!(
        create_compressed_order::handler(&mut registry, &create_accounts(), &args, NOW).unwrap_err(),
        GhostBridgeError::OrderHashExists
    );
    // A later creation time gives another expiry, hence another commitment.
    args.expiry_seconds = 10;
    assert!(create_compressed_order::handler(&mut registry, &create_accounts(), &args, NOW).is_ok());
    assert!(create_compressed_order::handler(&mut registry, &create_accounts(), &args, NOW + 1).is_ok());
    assert_eq!(registry.order_hash_count, 3);
    for i in 3..16u8 {
        let mut more = create_args([i; 16]);
        more.order_id = 100 + i as u64;
        assert!(create_compressed_order::handler(&mut registry, &create_accounts(), &more, NOW).is_ok());
    }
    assert_eq!(
        create_compressed_order::handler(&mut registry, &create_accounts(), &create_args([99; 16]), NOW)
            .unwrap_err(),
        GhostBridgeError::MaxOrdersReached
    );
}

fn encrypted_setup(salt: [u8; 16]) -> (ExecutorAuthority, EncryptedOrder, [u8; 32]) {
    let mut registry = registry();
    let committed = CompressedGhostOrder {
        owner: OWNER,
        order_id: 5,
        market_index: 2,
        trigger_price: 100,
        trigger_condition: TriggerCondition::Above,
        order_side: OrderSide::Short,
        base_asset_amount: 77,
        reduce_only: true,
        expiry: NOW + 50,
        feed_id: [8u8; 32],
        salt,
    };
    let hash = committed.compute_hash();
    let outcome = create_encrypted_order::handler(
        &mut registry,
        &create_encrypted_order::CreateEncryptedOrder {
            owner: OWNER,
            executor_authority: REGISTRY_KEY,
            encrypted_order: ORDER_KEY,
        },
        &create_encrypted_order::CreateEncryptedOrderArgs {
            order_hash: hash,
            encrypted_data: vec![0xde, 0xad, 0xbe, 0xef],
            feed_id: [8u8; 32],
        },
        253,
        NOW,
    )
    .unwrap();
    assert_eq!(outcome.event.created_at, NOW);
    assert_eq!(outcome.event.order_hash, hash);
    (registry, outcome.order, hash)
}

fn trigger_args(salt: [u8; 16]) -> trigger_and_execute::TriggerAndExecuteArgs {
    trigger_and_execute::TriggerAndExecuteArgs {
        salt,
        order_id: 5,
        market_index: 2,
        trigger_price: 100,
        trigger_condition: 0,
        order_side: 1,
        base_asset_amount: 77,
        reduce_only: true,
        expiry: NOW + 50,
        redelegate_after: false,
    }
}

fn trigger_accounts(payer: [u8; 32]) -> trigger_and_execute::TriggerAndExecute {
    trigger_and_execute::TriggerAndExecute {
        payer,
        encrypted_order: ORDER_KEY,
        executor_authority: REGISTRY_KEY,
        price_feed: [0x20; 32],
        drift_state: [0x10; 32],
        drift_user: [0x11; 32],
        drift_user_stats: [0x12; 32],
        drift_authority: [0x13; 32],
        perp_market: [0x14; 32],
        oracle: [0x15; 32],
        magic_context: [0x16; 32],
        magic_program: [0x17; 32],
    }
}

fn feed(price: i64) -> Vec<u8> {
    let mut data = vec![0u8; 64];
    data[..4].copy_from_slice(b"PYTH");
    data[40..48].copy_from_slice(&price.to_le_bytes());
    data
}

#[test]
fn ciphertext_order_is_stored_beside_its_commitment() {
    let (registry, order, hash) = encrypted_setup([1; 16]);
    assert!(registry.has_order_hash(&hash));
    assert_eq!(order.owner, OWNER);
    assert_eq!(order.order_hash, hash);
    assert_eq!(order.executor_authority, REGISTRY_KEY);
    assert_eq!(order.data_len, 4);
    assert_eq!(order.get_encrypted_data(), &[0xde, 0xad, 0xbe, 0xef]);
    assert_eq!(&order.encrypted_data[4..], &[0u8; 252][..]);
    assert_eq!(order.feed_id, [8u8; 32]);
    assert_eq!(order.created_at, NOW);
    assert_eq!(order.triggered_at, 0);
    assert_eq!(order.execution_price, 0);
    assert_eq!(order.status, EncryptedOrderStatus::Active);
    assert_eq!(order.bump, 253);
    assert!(!order.is_delegated);
}

#[test]
fn ciphertext_order_is_refused_when_malformed() {
    let mut registry = registry();
    let accounts = create_encrypted_order::CreateEncryptedOrder {
        owner: OWNER,
        executor_authority: REGISTRY_KEY,
        encrypted_order: ORDER_KEY,
    };
    let mut args = create_encrypted_order::CreateEncryptedOrderArgs {
        order_hash: [1u8; 32],
        encrypted_data: vec![],
        feed_id: [0u8; 32],
    };
    assert_eq!(
        create_encrypted_order::handler(&mut registry, &accounts, &args, 1, NOW).unwrap_err(),
        GhostBridgeError::InvalidOrderData
    );
    args.encrypted_data = vec![1u8; 257];
    assert_eq!(
        create_encrypted_order::handler(&mut registry, &accounts, &args, 1, NOW).unwrap_err(),
        GhostBridgeError::InvalidOrderData
    );
    assert_eq!(registry.order_hash_count, 0);
    args.encrypted_data = vec![1u8; 256];
    let stranger = create_encrypted_order::CreateEncryptedOrder { owner: [7u8; 32], ..accounts };
    assert_eq!(
        create_encrypted_order::handler(&mut registry, &stranger, &args, 1, NOW).unwrap_err(),
        GhostBridgeError::Unauthorized
    );
    let made = create_encrypted_order::handler(&mut registry, &accounts, &args, 1, NOW).unwrap();
    assert_eq!(made.order.data_len, 256);
    assert_eq!(
        create_encrypted_order::handler(&mut registry, &accounts, &args, 1, NOW).unwrap_err(),
        GhostBridgeError::OrderHashExists
    );
}

#[test]
fn trigger_fires_and_settles() {
    let (mut registry, mut order, hash) = encrypted_setup([1; 16]);
    let outcome = trigger_and_execute::handler(
        &mut order,
        &mut registry,
        &trigger_accounts(OWNER),
        &trigger_args([1; 16]),
        &vec![],
        &PYTH_RECEIVER_ID,
        &feed(100),
        NOW,
    )
    .unwrap();
    assert_eq!(order.status, EncryptedOrderStatus::Executed);
    assert_eq!(order.triggered_at, NOW);
    assert_eq!(order.execution_price, 100);
    assert!(!registry.has_order_hash(&hash));
    match outcome {
        trigger_and_execute::TriggerOutcome::Executed { event, action } => {
            assert_eq!(event.owner, OWNER);
            assert_eq!(event.order_hash, hash);
            assert_eq!(event.market_index, 2);
            assert_eq!(event.order_side, 1);
            assert_eq!(event.base_asset_amount, 77);
            assert_eq!(event.trigger_price, 100);
            assert_eq!(event.execution_price, 100);
            assert_eq!(event.executed_at, NOW);
            assert!(!event.redelegated);
            match action {
                MagicAction::CommitAndUndelegate(both) => match both.commit_type {
                    CommitType::WithHandler { commited_accounts, call_handlers } => {
                        assert_eq!(commited_accounts, vec![ORDER_KEY, REGISTRY_KEY]);
                        assert_eq!(call_handlers.len(), 1);
                        assert_eq!(
                            call_handlers[0].args.data,
                            build_drift_place_perp_order(2, OrderSide::Short, 77, true)
                        );
                    }
                    other => panic!("unexpected commit {:?}", other),
                },
                other => panic!("unexpected action {:?}", other),
            }
        }
        other => panic!("unexpected outcome {:?}", other),
    }
}

#[test]
fn trigger_call_is_refused_without_effect() {
    let (mut registry, mut order, _) = encrypted_setup([1; 16]);
    let before = (registry.clone(), order.clone());
    let run = |order: &mut EncryptedOrder,
               registry: &mut ExecutorAuthority,
               payer: [u8; 32],
               args: &trigger_and_execute::TriggerAndExecuteArgs,
               remaining: &Vec<[u8; 32]>,
               feed_owner: [u8; 32],
               data: &[u8]| {
        trigger_and_execute::handler(
            order,
            registry,
            &trigger_accounts(payer),
            args,
            remaining,
            &feed_owner,
            data,
            NOW,
        )
    };
    // Wrong salt: the recomputed hash differs from the stored one.
    assert_eq!(
        run(&mut order, &mut registry, OWNER, &trigger_args([2; 16]), &vec![], PYTH_RECEIVER_ID, &feed(100))
            .unwrap_err(),
        GhostBridgeError::OrderHashMismatch
    );
    // A caller who is neither the owner nor allow-listed.
    assert_eq!(
        run(&mut order, &mut registry, PAYER, &trigger_args([1; 16]), &vec![], PYTH_RECEIVER_ID, &feed(100))
            .unwrap_err(),
        GhostBridgeError::ExecutorNotAuthorized
    );
    let mut bad = trigger_args([1; 16]);
    bad.trigger_condition = 3;
    assert_eq!(
        run(&mut order, &mut registry, OWNER, &bad, &vec![], PYTH_RECEIVER_ID, &feed(100)).unwrap_err(),
        GhostBridgeError::InvalidTriggerCondition
    );
    bad.trigger_condition = 0;
    bad.order_side = 3;
    assert_eq!(
        run(&mut order, &mut registry, OWNER, &bad, &vec![], PYTH_RECEIVER_ID, &feed(100)).unwrap_err(),
        GhostBridgeError::InvalidOrderData
    );
    assert_eq!(
        run(&mut order, &mut registry, OWNER, &trigger_args([1; 16]), &vec![], [0u8; 32], &feed(100))
            .unwrap_err(),
        GhostBridgeError::InvalidPriceFeed
    );
    let mut again = trigger_args([1; 16]);
    again.redelegate_after = true;
    assert_eq!(
        run(&mut order, &mut registry, OWNER, &again, &vec![[1u8; 32]; 2], PYTH_RECEIVER_ID, &feed(100))
            .unwrap_err(),
        GhostBridgeError::MagicActionFailed
    );
    assert_eq!((registry.clone(), order.clone()), before);

    // A price below an Above trigger: accepted, nothing changes.
    let held = run(&mut order, &mut registry, OWNER, &trigger_args([1; 16]), &vec![], PYTH_RECEIVER_ID, &feed(99))
        .unwrap();
    assert_eq!(held, trigger_and_execute::TriggerOutcome::NotTriggered);
    assert_eq!((registry.clone(), order.clone()), before);

    order.status = EncryptedOrderStatus::Cancelled;
    assert_eq!(
        run(&mut order, &mut registry, OWNER, &trigger_args([1; 16]), &vec![], PYTH_RECEIVER_ID, &feed(100))
            .unwrap_err(),
        GhostBridgeError::OrderNotActive
    );
}

#[test]
fn allow_listed_executor_may_trigger_with_redelegation() {
    let (mut registry, mut order, _) = encrypted_setup([1; 16]);
    let changed = authorize_executor::handler(
        &mut registry,
        &authorize_executor::AuthorizeExecutor { owner: OWNER, executor_authority: REGISTRY_KEY },
        &authorize_executor::AuthorizeExecutorArgs { executor: PAYER, authorize: true },
    )
    .unwrap();
    assert!(changed.authorized);
    assert_eq!(changed.executor, PAYER);
    let mut args = trigger_args([1; 16]);
    args.redelegate_after = true;
    let outcome = trigger_and_execute::handler(
        &mut order,
        &mut registry,
        &trigger_accounts(PAYER),
        &args,
        &vec![[0x31; 32], [0x32; 32], [0x33; 32]],
        &PYTH_RECEIVER_ID,
        &feed(101),
        NOW + 50,
    )
    .unwrap();
    match outcome {
        trigger_and_execute::TriggerOutcome::Executed { event, action } => {
            assert!(event.redelegated);
            assert_eq!(event.execution_price, 101);
            match action {
                MagicAction::CommitAndUndelegate(both) => match both.commit_type {
                    CommitType::WithHandler { call_handlers, .. } => {
                        assert_eq!(call_handlers.len(), 2);
                        assert_eq!(call_handlers[1].accounts[1].pubkey, ORDER_KEY);
                        assert_eq!(call_handlers[1].accounts[2].pubkey, [0x31; 32]);
                        assert_eq!(call_handlers[1].accounts[4].pubkey, [0x33; 32]);
                    }
                    other => panic!("unexpected commit {:?}", other),
                },
                other => panic!("unexpected action {:?}", other),
            }
        }
        other => panic!("unexpected outcome {:?}", other),
    }
}

#[test]
fn expired_order_is_cancelled_and_leaves_the_registry() {
    let (mut registry, mut order, hash) = encrypted_setup([1; 16]);
    let outcome = trigger_and_execute::handler(
        &mut order,
        &mut registry,
        &trigger_accounts(OWNER),
        &trigger_args([1; 16]),
        &vec![],
        &[0u8; 32],
        &[],
        NOW + 51,
    )
    .unwrap();
    assert_eq!(outcome, trigger_and_execute::TriggerOutcome::Expired);
    assert_eq!(order.status, EncryptedOrderStatus::Cancelled);
    assert!(!registry.has_order_hash(&hash));
    assert_eq!(registry.order_hash_count, 0);
}

#[test]
fn cancel_then_close() {
    let (mut registry, mut order, hash) = encrypted_setup([1; 16]);
    let close = close_encrypted_order::CloseEncryptedOrder { owner: OWNER, encrypted_order: ORDER_KEY };
    assert_eq!(
        close_encrypted_order::handler(&order, &close).unwrap_err(),
        GhostBridgeError::InvalidOrderData
    );
    let cancel = cancel_encrypted_order::CancelEncryptedOrder {
        owner: OWNER,
        encrypted_order: ORDER_KEY,
        executor_authority: REGISTRY_KEY,
    };
    let stranger = cancel_encrypted_order::CancelEncryptedOrder { owner: PAYER, ..cancel };
    assert_eq!(
        cancel_encrypted_order::handler(&mut order, &mut registry, &stranger).unwrap_err(),
        GhostBridgeError::Unauthorized
    );
    assert!(registry.has_order_hash(&hash));
    let event = cancel_encrypted_order::handler(&mut order, &mut registry, &cancel).unwrap();
    assert_eq!(event.order_hash, hash);
    assert_eq!(event.owner, OWNER);
    assert_eq!(order.status, EncryptedOrderStatus::Cancelled);
    assert!(!registry.has_order_hash(&hash));
    assert_eq!(
        cancel_encrypted_order::handler(&mut order, &mut registry, &cancel).unwrap_err(),
        GhostBridgeError::InvalidOrderData
    );
    assert_eq!(
        close_encrypted_order::handler(
            &order,
            &close_encrypted_order::CloseEncryptedOrder { owner: PAYER, encrypted_order: ORDER_KEY }
        )
        .unwrap_err(),
        GhostBridgeError::Unauthorized
    );
    let closed = close_encrypted_order::handler(&order, &close).unwrap();
    assert_eq!(closed.order_hash, hash);
    order.status = EncryptedOrderStatus::Executed;
    assert!(close_encrypted_order::handler(&order, &close).is_ok());
    order.status = EncryptedOrderStatus::Triggered;
    assert!(close_encrypted_order::handler(&order, &close).is_err());
}

#[test]
fn cancelling_an_unregistered_order_is_refused() {
    let (mut registry, mut order, hash) = encrypted_setup([1; 16]);
    registry.remove_order_hash(hash).unwrap();
    let cancel = cancel_encrypted_order::CancelEncryptedOrder {
        owner: OWNER,
        encrypted_order: ORDER_KEY,
        executor_authority: REGISTRY_KEY,
    };
    assert_eq!(
        cancel_encrypted_order::handler(&mut order, &mut registry, &cancel).unwrap_err(),
        GhostBridgeError::OrderHashNotFound
    );
    assert_eq!(order.status, EncryptedOrderStatus::Active);
}

#[test]
fn only_the_owner_changes_the_allow_list() {
    let mut registry = registry();
    let accounts = authorize_executor::AuthorizeExecutor { owner: OWNER, executor_authority: REGISTRY_KEY };
    let stranger = authorize_executor::AuthorizeExecutor { owner: PAYER, executor_authority: REGISTRY_KEY };
    let add = authorize_executor::AuthorizeExecutorArgs { executor: PAYER, authorize: true };
    let drop = authorize_executor::AuthorizeExecutorArgs { executor: PAYER, authorize: false };
    assert_eq!(
        authorize_executor::handler(&mut registry, &stranger, &add).unwrap_err(),
        GhostBridgeError::Unauthorized
    );
    assert!(authorize_executor::handler(&mut registry, &accounts, &add).is_ok());
    assert!(authorize_executor::handler(&mut registry, &accounts, &add).is_ok());
    assert_eq!(registry.executor_count, 1);
    assert!(registry.is_authorized_executor(&PAYER));
    let event = authorize_executor::handler(&mut registry, &accounts, &drop).unwrap();
    assert!(!event.authorized);
    assert!(!registry.is_authorized_executor(&PAYER));
    assert!(authorize_executor::handler(&mut registry, &accounts, &drop).is_ok());
    for i in 0..4u8 {
        let one = authorize_executor::AuthorizeExecutorArgs { executor: [0x40 + i; 32], authorize: true };
        assert!(authorize_executor::handler(&mut registry, &accounts, &one).is_ok());
    }
    // A fifth executor that is not listed is refused; a listed one is
    // accepted again and nothing changes.
    assert_eq!(
        authorize_executor::handler(&mut registry, &accounts, &add).unwrap_err(),
        GhostBridgeError::MaxExecutorsReached
    );
    let full = registry.clone();
    let listed = authorize_executor::AuthorizeExecutorArgs { executor: [0x42; 32], authorize: true };
    assert!(authorize_executor::handler(&mut registry, &accounts, &listed).unwrap().authorized);
    assert_eq!(registry, full);
    assert_eq!(registry.executor_count, 4);
}

#[test]
fn custody_of_the_registry_moves_and_returns() {
    let mut registry = registry();
    let accounts = delegate_executor::DelegateExecutor { owner: OWNER, executor_authority: REGISTRY_KEY };
    let seeds = delegate_executor::handler(&registry, &accounts).unwrap();
    assert_eq!(seeds, vec![b"executor".to_vec(), OWNER.to_vec()]);
    assert_eq!(
        delegate_executor::handler(
            &registry,
            &delegate_executor::DelegateExecutor { owner: PAYER, executor_authority: REGISTRY_KEY }
        )
        .unwrap_err(),
        GhostBridgeError::Unauthorized
    );
    let undelegate = undelegate_executor::UndelegateExecutor {
        payer: PAYER,
        executor_authority: REGISTRY_KEY,
        magic_context: [0x16; 32],
        magic_program: [0x17; 32],
    };
    assert_eq!(
        undelegate_executor::handler(&mut registry, &undelegate).unwrap_err(),
        GhostBridgeError::ExecutorNotDelegated
    );
    let post = delegate_executor::PostDelegateExecutor { owner: OWNER, executor_authority: REGISTRY_KEY };
    assert_eq!(
        delegate_executor::post_delegate_handler(
            &mut registry,
            &delegate_executor::PostDelegateExecutor { owner: PAYER, executor_authority: REGISTRY_KEY }
        ),
        Err(GhostBridgeError::Unauthorized)
    );
    assert_eq!(delegate_executor::post_delegate_handler(&mut registry, &post), Ok(()));
    assert!(registry.is_delegated);
    assert_eq!(
        delegate_executor::handler(&registry, &accounts).unwrap_err(),
        GhostBridgeError::ExecutorDelegated
    );
    let action = undelegate_executor::handler(&mut registry, &undelegate).unwrap();
    assert!(!registry.is_delegated);
    assert_eq!(
        action,
        MagicAction::CommitAndUndelegate(ghost_orders::actions::CommitAndUndelegate {
            commit_type: CommitType::Standalone(vec![REGISTRY_KEY]),
            undelegate_type: UndelegateType::Standalone,
        })
    );
}

#[test]
fn ciphertext_order_is_delegated_by_the_registry_owner() {
    let registry = registry();
    let accounts = delegate_encrypted_order::DelegateEncryptedOrder {
        payer: OWNER,
        encrypted_order: ORDER_KEY,
        executor_authority: REGISTRY_KEY,
    };
    let args = delegate_encrypted_order::DelegateEncryptedOrderArgs { order_hash: [5u8; 32] };
    let outcome = delegate_encrypted_order::handler(&registry, &accounts, &args).unwrap();
    assert_eq!(
        outcome.seeds,
        vec![b"encrypted_order".to_vec(), OWNER.to_vec(), vec![5u8; 32]]
    );
    assert_eq!(outcome.event.owner, OWNER);
    assert_eq!(outcome.event.order_hash, [5u8; 32]);
    let stranger = delegate_encrypted_order::DelegateEncryptedOrder { payer: PAYER, ..accounts };
    assert_eq!(
        delegate_encrypted_order::handler(&registry, &stranger, &args).unwrap_err(),
        GhostBridgeError::Unauthorized
    );
}
