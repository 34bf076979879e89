use ghost_orders::actions::{ActionArgs, ShortAccountMeta, DEFAULT_ESCROW_INDEX};
use ghost_orders::ghost_bridge::constants::DRIFT_PROGRAM_ID;
use ghost_orders::ghost_bridge::drift_cpi::{
    build_drift_place_perp_order, build_drift_place_perp_order_full, DriftMarketType,
    DriftOrderType, DriftPostOnlyParam, PLACE_PERP_ORDER_DISCRIMINATOR,
};
use ghost_orders::ghost_bridge::instructions::consume_and_execute::{
    build_drift_call_handler, build_drift_short_account_metas, DRIFT_EXECUTE_COMPUTE_UNITS,
};
use ghost_orders::ghost_bridge::instructions::trigger_and_execute::{
    build_delegate_instruction_data, build_redelegate_handler, DELEGATE_COMPUTE_UNITS,
};
use ghost_orders::ghost_bridge::constants::{DELEGATION_PROGRAM_ID, SYSTEM_PROGRAM_ID};
use ghost_orders::ghost_bridge::errors::GhostBridgeError;
use ghost_orders::ghost_bridge::state::OrderSide;

#[test]
fn market_order_for_market_seven() {
    let data = build_drift_place_perp_order(7, OrderSide::Long, 1_000_000_000, false);
    assert_eq!(data.len(), 40);
    assert_eq!(data[10], 0);
    assert_eq!(u16::from_le_bytes(data[28..30].try_into().unwrap()), 7);
    assert_eq!(u64::from_le_bytes(data[12..20].try_into().unwrap()), 1_000_000_000);
    for i in 33..40 {
        assert_eq!(data[i], 0);
    }
    assert_eq!(
        data,
        vec![
            0x45, 0xa1, 0x5d, 0xca, 0x78, 0x7e, 0x4c, 0xb9, 0, 1, 0, 0, 0x00, 0xca, 0x9a, 0x3b,
            0, 0, 0, 0, 0, 0, 0, 0, 0, 0, 0, 0, 7, 0, 0, 0, 0, 0, 0, 0, 0, 0, 0, 0,
        ]
    );
}

#[test]
fn full_builder_places_every_field() {
    let data = build_drift_place_perp_order_full(
        DriftOrderType::Limit,
        0x0102,
        OrderSide::Short,
        0x1122334455667788,
        0x0a0b0c0d0e0f1011,
        true,
        0x80,
    );
    assert_eq!(data.len(), 40);
    assert_eq!(&data[0..8], &PLACE_PERP_ORDER_DISCRIMINATOR);
    assert_eq!(data[8], 1);
    assert_eq!(data[9], 1);
    assert_eq!(data[10], 1);
    assert_eq!(data[11], 0);
    assert_eq!(&data[12..20], &0x1122334455667788u64.to_le_bytes());
    assert_eq!(&data[20..28], &0x0a0b0c0d0e0f1011u64.to_le_bytes());
    assert_eq!(&data[28..30], &[0x02, 0x01]);
    assert_eq!(data[30], 1);
    assert_eq!(data[31], 0);
    assert_eq!(data[32], 0x80);
    assert_eq!(&data[33..40], &[0u8; 7]);
}

#[test]
fn venue_enums_have_their_wire_bytes() {
    assert_eq!(DriftOrderType::Market.to_u8(), 0);
    assert_eq!(DriftOrderType::Limit.to_u8(), 1);
    assert_eq!(DriftOrderType::TriggerMarket.to_u8(), 2);
    assert_eq!(DriftOrderType::TriggerLimit.to_u8(), 3);
    assert_eq!(DriftOrderType::Oracle.to_u8(), 4);
    assert_eq!(DriftMarketType::Spot.to_u8(), 0);
    assert_eq!(DriftMarketType::Perp.to_u8(), 1);
    assert_eq!(DriftPostOnlyParam::NoPostOnly.to_u8(), 0);
    assert_eq!(DriftPostOnlyParam::MustPostOnly.to_u8(), 1);
    assert_eq!(DriftPostOnlyParam::TryPostOnly.to_u8(), 2);
    assert_eq!(DriftPostOnlyParam::Slide.to_u8(), 3);
}

#[test]
fn settlement_accounts_come_in_the_venue_order() {
    let metas = build_drift_short_account_metas(
        [1u8; 32], [2u8; 32], [3u8; 32], [4u8; 32], [5u8; 32], [6u8; 32],
    );
    assert_eq!(
        metas,
        vec![
            ShortAccountMeta { pubkey: [1u8; 32], is_writable: false },
            ShortAccountMeta { pubkey: [2u8; 32], is_writable: true },
            ShortAccountMeta { pubkey: [4u8; 32], is_writable: false },
            ShortAccountMeta { pubkey: [3u8; 32], is_writable: true },
            ShortAccountMeta { pubkey: [5u8; 32], is_writable: true },
            ShortAccountMeta { pubkey: [6u8; 32], is_writable: false },
        ]
    );
}

#[test]
fn settlement_handler_targets_the_venue() {
    let metas = build_drift_short_account_metas(
        [1u8; 32], [2u8; 32], [3u8; 32], [4u8; 32], [5u8; 32], [6u8; 32],
    );
    let handler = build_drift_call_handler([9u8; 32], metas.clone(), 7, OrderSide::Short, 55, true);
    assert_eq!(handler.destination_program, DRIFT_PROGRAM_ID);
    assert_eq!(handler.escrow_authority, [9u8; 32]);
    assert_eq!(handler.compute_units, 200_000);
    assert_eq!(handler.compute_units, DRIFT_EXECUTE_COMPUTE_UNITS);
    assert_eq!(handler.accounts, metas);
    assert_eq!(handler.args.escrow_index, 255);
    assert_eq!(handler.args.data, build_drift_place_perp_order(7, OrderSide::Short, 55, true));
}

#[test]
fn action_args_are_those_of_the_scheduling_program() {
    let ours = ActionArgs::new(vec![1, 2, 3]);
    let theirs = magicblock_magic_program_api::args::ActionArgs::new(vec![1, 2, 3]);
    assert_eq!(ours.escrow_index, theirs.escrow_index);
    assert_eq!(ours.data, theirs.data);
    assert_eq!(DEFAULT_ESCROW_INDEX, 255);
}

#[test]
fn redelegation_call_needs_three_delegation_accounts() {
    let payer = [1u8; 32];
    let order_key = [2u8; 32];
    let two = vec![[3u8; 32], [4u8; 32]];
    assert_eq!(
        build_redelegate_handler(payer, &two, order_key, [0u8; 32]),
        Err(GhostBridgeError::MagicActionFailed)
    );
    let four = vec![[3u8; 32], [4u8; 32], [5u8; 32], [6u8; 32]];
    let handler = build_redelegate_handler(payer, &four, order_key, [0u8; 32]).unwrap();
    assert_eq!(handler.destination_program, DELEGATION_PROGRAM_ID);
    assert_eq!(handler.compute_units, 50_000);
    assert_eq!(handler.compute_units, DELEGATE_COMPUTE_UNITS);
    assert_eq!(handler.escrow_authority, payer);
    assert_eq!(handler.args.escrow_index, 255);
    assert_eq!(
        handler.args.data,
        vec![0x90, 0xf6, 0x7a, 0x11, 0x7e, 0x8c, 0x4f, 0x00, 0, 0, 0, 0, 0, 0, 0, 0]
    );
    assert_eq!(handler.args.data, build_delegate_instruction_data());
    assert_eq!(
        handler.accounts,
        vec![
            ShortAccountMeta { pubkey: payer, is_writable: true },
            ShortAccountMeta { pubkey: order_key, is_writable: true },
            ShortAccountMeta { pubkey: [3u8; 32], is_writable: true },
            ShortAccountMeta { pubkey: [4u8; 32], is_writable: true },
            ShortAccountMeta { pubkey: [5u8; 32], is_writable: true },
            ShortAccountMeta { pubkey: SYSTEM_PROGRAM_ID, is_writable: false },
        ]
    );
}
