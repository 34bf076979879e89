//! Asking the scheduling program to check an active order at a fixed
//! interval.

use vstd::prelude::*;
use vstd::bytes::{spec_u32_to_le_bytes, spec_u64_to_le_bytes};
use crate::actions::{AccountMeta, Instruction, InstructionView};
use crate::encoding::{bool_byte, push_bytes, push_u32_le, push_u64_le, to_vec, Pubkey};
use crate::ghost_crank::state::ghost_order::{GhostOrder, OrderStatus};

pub use crate::ghost_bridge::constants::MAGIC_PROGRAM_ID;

verus! {

/// Selector of this engine's order-check operation: the first eight bytes
/// of SHA-256 of `global:check_trigger`.
pub const CHECK_TRIGGER_DISCRIMINATOR: [u8; 8] = [0xca, 0x57, 0xd7, 0x60, 0x7c, 0x6f, 0xcd, 0xf7];

/// Tag byte of a schedule request.
pub const SCHEDULE_TASK_TAG: u8 = 1;

#[derive(Clone, Copy, Debug, PartialEq, Eq)]
pub struct ScheduleMonitoringArgs {
    pub task_id: u64,
    pub check_interval_millis: u64,
    pub max_iterations: u64,
}

/// Identities of the accounts the operation touches.
#[derive(Clone, Copy, Debug, PartialEq, Eq)]
pub struct ScheduleMonitoring {
    pub payer: Pubkey,
    pub ghost_order: Pubkey,
    pub price_feed: Pubkey,
    pub magic_program: Pubkey,
}

#[derive(Clone, Copy, PartialEq, Eq, Debug, Structural)]
pub enum ScheduleError {
    OrderNotActive,
    SerializationError,
}

/// The call that the scheduled task repeats: the order check of the
/// program that hosts this engine, on the order and its feed.
pub open spec fn check_trigger_instruction(
    program_id: Pubkey,
    ghost_order: Pubkey,
    price_feed: Pubkey,
) -> InstructionView {
    InstructionView {
        program_id,
        accounts: seq![
            AccountMeta { pubkey: ghost_order, is_signer: false, is_writable: true },
            AccountMeta { pubkey: price_feed, is_signer: false, is_writable: false },
        ],
        data: CHECK_TRIGGER_DISCRIMINATOR@,
    }
}

/// One account of a scheduled call on the wire: identity, signer flag,
/// writable flag.
pub open spec fn account_meta_bytes(meta: AccountMeta) -> Seq<u8> {
    meta.pubkey@ + seq![bool_byte(meta.is_signer), bool_byte(meta.is_writable)]
}

/// The accounts of a scheduled call on the wire, one after another.
pub open spec fn account_metas_bytes(metas: Seq<AccountMeta>) -> Seq<u8>
    decreases metas.len(),
{
    if metas.len() == 0 {
        Seq::empty()
    } else {
        account_metas_bytes(metas.drop_last()) + account_meta_bytes(metas.last())
    }
}

/// A schedule request on the wire: the tag, the task's three numbers and
/// an instruction count of one, then the instruction: program, account
/// count, accounts, data length, data. Integers are little-endian, counts
/// and lengths in four bytes.
pub open spec fn schedule_task_data(
    task_id: u64,
    execution_interval_millis: u64,
    iterations: u64,
    instruction: InstructionView,
) -> Seq<u8> {
    seq![SCHEDULE_TASK_TAG] + spec_u64_to_le_bytes(task_id) + spec_u64_to_le_bytes(
        execution_interval_millis,
    ) + spec_u64_to_le_bytes(iterations) + spec_u32_to_le_bytes(1) + instruction.program_id@
        + spec_u32_to_le_bytes(instruction.accounts.len() as u32) + account_metas_bytes(
        instruction.accounts,
    ) + spec_u32_to_le_bytes(instruction.data.len() as u32) + instruction.data
}

/// The call to the scheduling program that carries `data`; the hosting
/// program is passed along read-only.
pub open spec fn schedule_instruction(
    program_id: Pubkey,
    accounts: &ScheduleMonitoring,
    data: Seq<u8>,
) -> InstructionView {
    InstructionView {
        program_id: MAGIC_PROGRAM_ID,
        accounts: seq![
            AccountMeta { pubkey: accounts.payer, is_signer: true, is_writable: true },
            AccountMeta { pubkey: program_id, is_signer: false, is_writable: false },
        ],
        data,
    }
}

/// Builds the call that the scheduled task repeats.
pub fn build_check_trigger_instruction(
    program_id: &Pubkey,
    ghost_order: &Pubkey,
    price_feed: &Pubkey,
) -> (instruction: Instruction)
    ensures
        instruction@ == check_trigger_instruction(*program_id, *ghost_order, *price_feed),
{
    let mut accounts: Vec<AccountMeta> = Vec::new();
    accounts.push(AccountMeta::new(*ghost_order, false));
    accounts.push(AccountMeta::new_readonly(*price_feed, false));
    let instruction = Instruction {
        program_id: *program_id,
        accounts,
        data: to_vec(CHECK_TRIGGER_DISCRIMINATOR.as_slice()),
    };
    assert(instruction@.accounts =~= check_trigger_instruction(
        *program_id,
        *ghost_order,
        *price_feed,
    ).accounts);
    instruction
}

/// Encodes a schedule request for one instruction.
pub fn build_schedule_task_data(
    task_id: u64,
    execution_interval_millis: u64,
    iterations: u64,
    instruction: &Instruction,
) -> (data: Vec<u8>)
    requires
        instruction.accounts@.len() <= u32::MAX,
        instruction.data@.len() <= u32::MAX,
    ensures
        data@ == schedule_task_data(task_id, execution_interval_millis, iterations, instruction@),
{
    let mut data: Vec<u8> = Vec::new();
    data.push(SCHEDULE_TASK_TAG);
    push_u64_le(&mut data, task_id);
    push_u64_le(&mut data, execution_interval_millis);
    push_u64_le(&mut data, iterations);
    push_u32_le(&mut data, 1);
    push_bytes(&mut data, instruction.program_id.as_slice());
    push_u32_le(&mut data, instruction.accounts.len() as u32);
    let ghost head = data@;
    let mut i: usize = 0;
    assert(instruction.accounts@.subrange(0, 0) =~= Seq::<AccountMeta>::empty());
    while i < instruction.accounts.len()
        invariant
            i <= instruction.accounts@.len(),
            data@ == head + account_metas_bytes(instruction.accounts@.subrange(0, i as int)),
        decreases instruction.accounts@.len() - i,
    {
        let account = instruction.accounts[i];
        let ghost before = data@;
        push_bytes(&mut data, account.pubkey.as_slice());
        data.push(if account.is_signer { 1 } else { 0 });
        data.push(if account.is_writable { 1 } else { 0 });
        proof {
            let grown = instruction.accounts@.subrange(0, i + 1);
            assert(grown.drop_last() =~= instruction.accounts@.subrange(0, i as int));
            assert(grown.last() == account);
            assert(data@ =~= before + account_meta_bytes(account));
        }
        i = i + 1;
    }
    assert(instruction.accounts@.subrange(0, i as int) =~= instruction.accounts@);
    push_u32_le(&mut data, instruction.data.len() as u32);
    push_bytes(&mut data, instruction.data.as_slice());
    assert(data@ =~= schedule_task_data(
        task_id,
        execution_interval_millis,
        iterations,
        instruction@,
    ));
    data
}

/// Plans the scheduling call for an active order and records the task on
/// it; an order in any other state is refused and left as it is.
/// `program_id` is the identity of the program that hosts this engine: the
/// scheduled check is addressed to it.
pub fn handler(
    order: &mut GhostOrder,
    accounts: &ScheduleMonitoring,
    args: &ScheduleMonitoringArgs,
    program_id: &Pubkey,
) -> (result: Result<Instruction, ScheduleError>)
    ensures
        old(order).status != OrderStatus::Active ==> {
            &&& result matches Err(e)
            &&& e == ScheduleError::OrderNotActive
            &&& *final(order) == *old(order)
        },
        old(order).status == OrderStatus::Active ==> {
            &&& result matches Ok(instruction)
            &&& instruction@ == schedule_instruction(
                *program_id,
                accounts,
                schedule_task_data(
                    args.task_id,
                    args.check_interval_millis,
                    args.max_iterations,
                    check_trigger_instruction(
                        *program_id,
                        accounts.ghost_order,
                        accounts.price_feed,
                    ),
                ),
            )
            &&& *final(order) == (GhostOrder { crank_task_id: args.task_id, ..*old(order) })
        },
{
    if order.status != OrderStatus::Active {
        return Err(ScheduleError::OrderNotActive);
    }
    let check_trigger_ix = build_check_trigger_instruction(
        program_id,
        &accounts.ghost_order,
        &accounts.price_feed,
    );
    let schedule_task_data = build_schedule_task_data(
        args.task_id,
        args.check_interval_millis,
        args.max_iterations,
        &check_trigger_ix,
    );
    let mut metas: Vec<AccountMeta> = Vec::new();
    metas.push(AccountMeta::new(accounts.payer, true));
    metas.push(AccountMeta::new_readonly(*program_id, false));
    let instruction = Instruction {
        program_id: MAGIC_PROGRAM_ID,
        accounts: metas,
        data: schedule_task_data,
    };
    assert(instruction@.accounts =~= schedule_instruction(
        *program_id,
        accounts,
        instruction@.data,
    ).accounts);
    order.crank_task_id = args.task_id;
    Ok(instruction)
}

} // verus!
