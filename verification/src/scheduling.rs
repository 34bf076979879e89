//! The wire form of a request to run a call periodically in the
//! low-latency domain. The scheduling program defines the form; an outside
//! crate encodes it.

use vstd::prelude::*;
use crate::actions::{Instruction, InstructionView};

verus! {

/// The bytes that `bincode::serialize` gives for
/// `MagicBlockInstruction::ScheduleTask` with one instruction, or `None`
/// where it reports an error.
pub uninterp spec fn schedule_task_encoding(
    task_id: i64,
    execution_interval_millis: i64,
    iterations: i64,
    instruction: InstructionView,
) -> Option<Seq<u8>>;

/// The plain value of an encoding attempt.
pub open spec fn encoded_view(encoded: Option<Vec<u8>>) -> Option<Seq<u8>> {
    match encoded {
        Some(bytes) => Some(bytes@),
        None => None,
    }
}

/// Builds `magicblock_magic_program_api`'s `ScheduleTaskArgs` around one
/// instruction and calls `bincode::serialize` on
/// `MagicBlockInstruction::ScheduleTask` of it.
///
/// Trusted: the outcome is a function of the task's three numbers and of
/// the instruction's program, accounts and data alone. Nothing is claimed
/// of the bytes themselves, nor that encoding succeeds.
#[verifier::external_body]
pub(crate) fn encode_schedule_task(
    task_id: i64,
    execution_interval_millis: i64,
    iterations: i64,
    instruction: &Instruction,
) -> (encoded: Option<Vec<u8>>)
    ensures
        encoded_view(encoded) == schedule_task_encoding(
            task_id,
            execution_interval_millis,
            iterations,
            instruction@,
        ),
{
    let accounts = instruction.accounts.iter().map(|meta| magicblock_magic_program_api::compat::AccountMeta {
        pubkey: magicblock_magic_program_api::Pubkey::new_from_array(meta.pubkey),
        is_signer: meta.is_signer,
        is_writable: meta.is_writable,
    }).collect();
    let program_id = magicblock_magic_program_api::Pubkey::new_from_array(instruction.program_id);
    let call = magicblock_magic_program_api::compat::Instruction { program_id, accounts, data: instruction.data.clone() };
    let instructions = vec![call];
    let args = magicblock_magic_program_api::args::ScheduleTaskArgs { task_id, execution_interval_millis, iterations, instructions };
    bincode::serialize(&magicblock_magic_program_api::instruction::MagicBlockInstruction::ScheduleTask(args)).ok()
}

} // verus!
