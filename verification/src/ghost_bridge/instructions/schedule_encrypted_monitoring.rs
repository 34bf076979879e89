//! Asking the scheduling program to observe the oracle for an active
//! ciphertext order at a fixed interval.

use vstd::prelude::*;
use crate::actions::{AccountMeta, Instruction, InstructionView};
use crate::encoding::{to_vec, Pubkey};
use crate::ghost_bridge::constants::{ID, MAGIC_PROGRAM_ID};
use crate::ghost_bridge::errors::GhostBridgeError;
use crate::ghost_bridge::state::encrypted_order::{EncryptedOrder, EncryptedOrderStatus};
use crate::scheduling::{encode_schedule_task, encoded_view, schedule_task_encoding};

verus! {

/// Selector of this engine's price-observation operation: the first eight
/// bytes of SHA-256 of `global:check_price_update`.
pub const CHECK_PRICE_UPDATE_DISCRIMINATOR: [u8; 8] = [0x78, 0xca, 0x88, 0x47, 0x5c, 0x91, 0x8b, 0xe3];

#[derive(Clone, Copy, Debug, PartialEq, Eq)]
pub struct ScheduleEncryptedMonitoringArgs {
    pub task_id: i64,
    pub check_interval_millis: i64,
    pub max_iterations: i64,
}

/// Identities of the accounts the operation touches.
#[derive(Clone, Copy, Debug, PartialEq, Eq)]
pub struct ScheduleEncryptedMonitoring {
    pub payer: Pubkey,
    pub encrypted_order: Pubkey,
    pub price_feed: Pubkey,
    pub magic_program: Pubkey,
}

/// The record of a scheduled task.
#[derive(Clone, Copy, Debug, PartialEq, Eq)]
pub struct MonitoringScheduled {
    pub order_hash: [u8; 32],
    pub task_id: i64,
    pub check_interval_millis: i64,
    pub max_iterations: i64,
}

/// The call to make and the event to publish.
#[derive(Clone, Debug, PartialEq, Eq)]
pub struct ScheduleEncryptedMonitoringOutcome {
    pub instruction: Instruction,
    pub event: MonitoringScheduled,
}

/// The call that the scheduled task repeats: this engine's
/// price-observation operation on the order and its feed.
pub open spec fn check_encrypted_trigger_instruction(
    encrypted_order: Pubkey,
    price_feed: Pubkey,
) -> InstructionView {
    InstructionView {
        program_id: ID,
        accounts: seq![
            AccountMeta { pubkey: encrypted_order, is_signer: false, is_writable: true },
            AccountMeta { pubkey: price_feed, is_signer: false, is_writable: false },
        ],
        data: CHECK_PRICE_UPDATE_DISCRIMINATOR@,
    }
}

/// The call to the scheduling program that carries `data`.
pub open spec fn schedule_instruction(
    accounts: &ScheduleEncryptedMonitoring,
    data: Seq<u8>,
) -> InstructionView {
    InstructionView {
        program_id: MAGIC_PROGRAM_ID,
        accounts: seq![
            AccountMeta { pubkey: accounts.payer, is_signer: true, is_writable: true },
            AccountMeta { pubkey: accounts.encrypted_order, is_signer: false, is_writable: true },
            AccountMeta { pubkey: accounts.price_feed, is_signer: false, is_writable: false },
        ],
        data,
    }
}

/// The encoded schedule request for an order, as the outside encoder gives
/// it.
pub open spec fn encoded_request(
    accounts: &ScheduleEncryptedMonitoring,
    args: &ScheduleEncryptedMonitoringArgs,
) -> Option<Seq<u8>> {
    schedule_task_encoding(
        args.task_id,
        args.check_interval_millis,
        args.max_iterations,
        check_encrypted_trigger_instruction(accounts.encrypted_order, accounts.price_feed),
    )
}

/// Builds the call that the scheduled task repeats.
pub fn build_check_encrypted_trigger_instruction(
    encrypted_order: &Pubkey,
    price_feed: &Pubkey,
) -> (instruction: Instruction)
    ensures
        instruction@ == check_encrypted_trigger_instruction(*encrypted_order, *price_feed),
{
    let mut accounts: Vec<AccountMeta> = Vec::new();
    accounts.push(AccountMeta::new(*encrypted_order, false));
    accounts.push(AccountMeta::new_readonly(*price_feed, false));
    let instruction = Instruction {
        program_id: ID,
        accounts,
        data: to_vec(CHECK_PRICE_UPDATE_DISCRIMINATOR.as_slice()),
    };
    assert(instruction@.accounts =~= check_encrypted_trigger_instruction(
        *encrypted_order,
        *price_feed,
    ).accounts);
    instruction
}

/// Finishes the operation once the schedule request has been encoded:
/// a failed encoding is refused; otherwise the bytes become the data of
/// the call to the scheduling program.
pub fn complete(
    order: &EncryptedOrder,
    accounts: &ScheduleEncryptedMonitoring,
    args: &ScheduleEncryptedMonitoringArgs,
    encoded: Option<Vec<u8>>,
) -> (result: Result<ScheduleEncryptedMonitoringOutcome, GhostBridgeError>)
    ensures
        encoded is None ==> {
            &&& result matches Err(e)
            &&& e == GhostBridgeError::MagicActionFailed
        },
        encoded matches Some(bytes) ==> {
            &&& result matches Ok(outcome)
            &&& outcome.instruction@ == schedule_instruction(accounts, bytes@)
            &&& outcome.event == (MonitoringScheduled {
                order_hash: order.order_hash,
                task_id: args.task_id,
                check_interval_millis: args.check_interval_millis,
                max_iterations: args.max_iterations,
            })
        },
{
    let data = match encoded {
        Some(bytes) => bytes,
        None => {
            return Err(GhostBridgeError::MagicActionFailed);
        },
    };
    let mut metas: Vec<AccountMeta> = Vec::new();
    metas.push(AccountMeta::new(accounts.payer, true));
    metas.push(AccountMeta::new(accounts.encrypted_order, false));
    metas.push(AccountMeta::new_readonly(accounts.price_feed, false));
    let instruction = Instruction { program_id: MAGIC_PROGRAM_ID, accounts: metas, data };
    assert(instruction@.accounts =~= schedule_instruction(accounts, instruction@.data).accounts);
    Ok(
        ScheduleEncryptedMonitoringOutcome {
            instruction,
            event: MonitoringScheduled {
                order_hash: order.order_hash,
                task_id: args.task_id,
                check_interval_millis: args.check_interval_millis,
                max_iterations: args.max_iterations,
            },
        },
    )
}

/// Plans the scheduling call for an active order. Only an active order is
/// monitored; whether the request can be encoded is the outside encoder's
/// to say.
pub fn handler(
    order: &EncryptedOrder,
    accounts: &ScheduleEncryptedMonitoring,
    args: &ScheduleEncryptedMonitoringArgs,
) -> (result: Result<ScheduleEncryptedMonitoringOutcome, GhostBridgeError>)
    ensures
        order.status != EncryptedOrderStatus::Active ==> {
            &&& result matches Err(e)
            &&& e == GhostBridgeError::InvalidOrderData
        },
        order.status == EncryptedOrderStatus::Active ==> match encoded_request(accounts, args) {
            None => {
                &&& result matches Err(e)
                &&& e == GhostBridgeError::MagicActionFailed
            },
            Some(bytes) => {
                &&& result matches Ok(outcome)
                &&& outcome.instruction@ == schedule_instruction(accounts, bytes)
                &&& outcome.event == (MonitoringScheduled {
                    order_hash: order.order_hash,
                    task_id: args.task_id,
                    check_interval_millis: args.check_interval_millis,
                    max_iterations: args.max_iterations,
                })
            },
        },
{
    if order.status != EncryptedOrderStatus::Active {
        return Err(GhostBridgeError::InvalidOrderData);
    }
    let check_trigger_ix = build_check_encrypted_trigger_instruction(
        &accounts.encrypted_order,
        &accounts.price_feed,
    );
    let encoded = encode_schedule_task(
        args.task_id,
        args.check_interval_millis,
        args.max_iterations,
        &check_trigger_ix,
    );
    complete(order, accounts, args, encoded)
}

} // verus!
