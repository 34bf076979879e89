//! The reveal: the caller supplies the parameters and nonce, the engine
//! holds them against the commitment recorded when the order was armed, and
//! only a matching reveal inside the execution window is settled. The
//! settlement call is authorized by the order's delegate sub-identity, so
//! the owner's own key never signs.

use vstd::prelude::*;
use crate::actions::{AccountMeta, Instruction, InstructionView};
use crate::address::seeds_view;
use crate::encoding::{bytes32_eq, to_vec, Pubkey};
use crate::ghost_bridge::drift_cpi::{build_drift_place_perp_order, market_order_bytes};
use crate::ghost_crank::state::ghost_order::{GhostOrder, OrderParams, OrderStatus};

pub use crate::ghost_bridge::constants::DRIFT_PROGRAM_ID;

verus! {

#[derive(Clone, Copy, Debug, PartialEq, Eq)]
pub struct ExecuteWithCommitmentArgs {
    pub order_params: OrderParams,
    pub nonce: u64,
}

/// Identities of the accounts the operation touches.
#[derive(Clone, Copy, Debug, PartialEq, Eq)]
pub struct ExecuteWithCommitment {
    pub keeper: Pubkey,
    pub ghost_order: Pubkey,
    pub delegate_pda: Pubkey,
    pub drift_state: Pubkey,
    pub drift_user: Pubkey,
    pub drift_user_stats: Pubkey,
    pub perp_market: Pubkey,
    pub oracle: Pubkey,
    pub drift_program: Pubkey,
}

#[derive(Clone, Copy, PartialEq, Eq, Debug, Structural)]
pub enum ExecuteError {
    NotReady,
    Expired,
    NonceMismatch,
    CommitmentMismatch,
    DriftUserMismatch,
    DriftCpiFailed,
}

/// The settlement call and the seeds of the sub-identity that signs it.
#[derive(Clone, Debug, PartialEq, Eq)]
pub struct SignedCall {
    pub instruction: Instruction,
    pub signer_seeds: Vec<Vec<u8>>,
}

/// Whether the execution window has passed at `slot`.
pub open spec fn window_passed(order: &GhostOrder, slot: u64) -> bool {
    slot > order.ready_expires_at
}

/// Why the reveal is refused, if it is; the checks are made in this order
/// and the first that fails decides.
pub open spec fn rejection(
    order: &GhostOrder,
    accounts: &ExecuteWithCommitment,
    args: &ExecuteWithCommitmentArgs,
    slot: u64,
) -> Option<ExecuteError> {
    if order.status != OrderStatus::ReadyToExecute {
        Some(ExecuteError::NotReady)
    } else if accounts.drift_user@ != order.drift_user@ {
        Some(ExecuteError::DriftUserMismatch)
    } else if window_passed(order, slot) {
        Some(ExecuteError::Expired)
    } else if args.nonce != order.nonce {
        Some(ExecuteError::NonceMismatch)
    } else if args.order_params.spec_commitment(args.nonce) != order.params_commitment@ {
        Some(ExecuteError::CommitmentMismatch)
    } else {
        None
    }
}

/// The settlement call: a market order of the revealed parameters, with
/// the delegate sub-identity as the signing trader authority.
pub open spec fn settlement_instruction(
    accounts: &ExecuteWithCommitment,
    params: &OrderParams,
) -> InstructionView {
    InstructionView {
        program_id: DRIFT_PROGRAM_ID,
        accounts: seq![
            AccountMeta { pubkey: accounts.drift_state, is_signer: false, is_writable: false },
            AccountMeta { pubkey: accounts.drift_user, is_signer: false, is_writable: true },
            AccountMeta { pubkey: accounts.delegate_pda, is_signer: true, is_writable: false },
            AccountMeta { pubkey: accounts.drift_user_stats, is_signer: false, is_writable: true },
            AccountMeta { pubkey: accounts.perp_market, is_signer: false, is_writable: true },
            AccountMeta { pubkey: accounts.oracle, is_signer: false, is_writable: false },
        ],
        data: market_order_bytes(
            params.market_index,
            params.order_side,
            params.base_asset_amount,
            params.reduce_only,
        ),
    }
}

/// The seeds that sign for the delegate sub-identity: the prefix, the
/// owner, the bump seed.
pub open spec fn delegate_signer_seeds(order: &GhostOrder) -> Seq<Seq<u8>> {
    seq![GhostOrder::DELEGATE_SEED_PREFIX@, order.owner@, seq![order.delegate_bump]]
}

/// The record of an order settled at `unix_timestamp`.
pub open spec fn settled(order: &GhostOrder, unix_timestamp: i64) -> GhostOrder {
    GhostOrder { status: OrderStatus::Executed, executed_at: unix_timestamp, ..*order }
}

/// An order armed at tick `armed_at` with the commitment to its own
/// parameters, called with the account it is bound to:
///
/// * accepts the reveal of those parameters and its nonce up to tick
///   `armed_at + 100`, and refuses it as expired from the next tick on;
/// * inside the window refuses another nonce as a nonce mismatch, whatever
///   the parameters, and parameters whose commitment differs as a
///   commitment mismatch;
/// * once settled is `Executed` at the time of the call, a step the
///   lifecycle allows; what is called is the venue, with the revealed
///   parameters, and the only signer is the delegate sub-identity, signing
///   with the seeds prefix, owner, bump.
pub proof fn lemma_ready_window(
    ready: &GhostOrder,
    accounts: &ExecuteWithCommitment,
    armed_at: u64,
    slot: u64,
    unix_timestamp: i64,
    other_nonce: u64,
    tampered: &OrderParams,
)
    requires
        ready.status == OrderStatus::ReadyToExecute,
        ready.ready_expires_at == armed_at + 100,
        ready.params_commitment@ == ready.params().spec_commitment(ready.nonce),
        accounts.drift_user@ == ready.drift_user@,
        other_nonce != ready.nonce,
        tampered.spec_commitment(ready.nonce) != ready.params_commitment@,
    ensures
        rejection(
            ready,
            accounts,
            &(ExecuteWithCommitmentArgs { order_params: ready.params(), nonce: ready.nonce }),
            slot,
        ) == (if slot > armed_at + 100 {
            Some(ExecuteError::Expired)
        } else {
            None::<ExecuteError>
        }),
        slot <= armed_at + 100 ==> rejection(
            ready,
            accounts,
            &(ExecuteWithCommitmentArgs { order_params: ready.params(), nonce: other_nonce }),
            slot,
        ) == Some(ExecuteError::NonceMismatch),
        slot <= armed_at + 100 ==> rejection(
            ready,
            accounts,
            &(ExecuteWithCommitmentArgs { order_params: *tampered, nonce: other_nonce }),
            slot,
        ) == Some(ExecuteError::NonceMismatch),
        slot <= armed_at + 100 ==> rejection(
            ready,
            accounts,
            &(ExecuteWithCommitmentArgs { order_params: *tampered, nonce: ready.nonce }),
            slot,
        ) == Some(ExecuteError::CommitmentMismatch),
        settled(ready, unix_timestamp).status == OrderStatus::Executed,
        settled(ready, unix_timestamp).executed_at == unix_timestamp,
        ready.status.may_become(settled(ready, unix_timestamp).status),
        ({
            let call = settlement_instruction(accounts, &ready.params());
            &&& call.program_id == DRIFT_PROGRAM_ID
            &&& call.data == market_order_bytes(
                ready.market_index,
                ready.order_side,
                ready.base_asset_amount,
                ready.reduce_only,
            )
            &&& call.accounts.len() == 6
            &&& call.accounts[2].pubkey == accounts.delegate_pda
            &&& call.accounts[2].is_signer
            &&& forall|i: int| 0 <= i < 6 && i != 2 ==> !(#[trigger] call.accounts[i]).is_signer
        }),
        delegate_signer_seeds(ready) == seq![
            GhostOrder::DELEGATE_SEED_PREFIX@,
            ready.owner@,
            seq![ready.delegate_bump],
        ],
{
}

/// Builds the settlement call for revealed parameters.
pub fn build_settlement_instruction(
    accounts: &ExecuteWithCommitment,
    params: &OrderParams,
) -> (instruction: Instruction)
    ensures
        instruction@ == settlement_instruction(accounts, params),
{
    let data = build_drift_place_perp_order(
        params.market_index,
        params.order_side,
        params.base_asset_amount,
        params.reduce_only,
    );
    let mut metas: Vec<AccountMeta> = Vec::with_capacity(6);
    metas.push(AccountMeta::new_readonly(accounts.drift_state, false));
    metas.push(AccountMeta::new(accounts.drift_user, false));
    metas.push(AccountMeta::new_readonly(accounts.delegate_pda, true));
    metas.push(AccountMeta::new(accounts.drift_user_stats, false));
    metas.push(AccountMeta::new(accounts.perp_market, false));
    metas.push(AccountMeta::new_readonly(accounts.oracle, false));
    let instruction = Instruction { program_id: DRIFT_PROGRAM_ID, accounts: metas, data };
    assert(instruction@.accounts =~= settlement_instruction(accounts, params).accounts);
    instruction
}

/// Executes an armed order on a matching reveal, or refuses with no
/// effect.
pub fn handler(
    order: &mut GhostOrder,
    accounts: &ExecuteWithCommitment,
    args: &ExecuteWithCommitmentArgs,
    slot: u64,
    unix_timestamp: i64,
) -> (result: Result<SignedCall, ExecuteError>)
    ensures
        match rejection(old(order), accounts, args, slot) {
            Some(error) => {
                &&& result matches Err(e)
                &&& e == error
                &&& *final(order) == *old(order)
            },
            None => {
                &&& result matches Ok(call)
                &&& call.instruction@ == settlement_instruction(accounts, &args.order_params)
                &&& seeds_view(call.signer_seeds@) == delegate_signer_seeds(old(order))
                &&& *final(order) == settled(old(order), unix_timestamp)
                &&& old(order).status.may_become(final(order).status)
            },
        },
{
    if order.status != OrderStatus::ReadyToExecute {
        return Err(ExecuteError::NotReady);
    }
    if !bytes32_eq(&accounts.drift_user, &order.drift_user) {
        return Err(ExecuteError::DriftUserMismatch);
    }
    if order.ready_expires_at < 0 || slot > order.ready_expires_at as u64 {
        return Err(ExecuteError::Expired);
    }
    if args.nonce != order.nonce {
        return Err(ExecuteError::NonceMismatch);
    }
    let computed = args.order_params.commitment(args.nonce);
    if !bytes32_eq(&computed, &order.params_commitment) {
        return Err(ExecuteError::CommitmentMismatch);
    }
    let instruction = build_settlement_instruction(accounts, &args.order_params);
    let mut bump_seed: Vec<u8> = Vec::new();
    bump_seed.push(order.delegate_bump);
    assert(bump_seed@ =~= seq![order.delegate_bump]);
    let mut signer_seeds: Vec<Vec<u8>> = Vec::new();
    signer_seeds.push(to_vec(GhostOrder::DELEGATE_SEED_PREFIX.as_slice()));
    signer_seeds.push(to_vec(order.owner.as_slice()));
    signer_seeds.push(bump_seed);
    assert(seeds_view(signer_seeds@) =~= delegate_signer_seeds(old(order)));
    order.status = OrderStatus::Executed;
    order.executed_at = unix_timestamp;
    Ok(SignedCall { instruction, signer_seeds })
}

} // verus!
