//! Settlement of an armed order from the parameters stored in its record:
//! inside its execution window the order is marked executed and the custody
//! hand-back is planned with the settlement call bundled, and a
//! re-delegation call after it where asked for.

use vstd::prelude::*;
use crate::actions::{
    handlers_view, ActionArgs, CallHandler, CallHandlerView, CommitAndUndelegate, CommitType,
    CommitTypeView, MagicAction, MagicActionView, ShortAccountMeta, UndelegateType,
    UndelegateTypeView, DEFAULT_ESCROW_INDEX,
};
use crate::address::{program_address, try_find_program_address};
use crate::encoding::Pubkey;
use crate::ghost_bridge::constants::SYSTEM_PROGRAM_ID;
use crate::ghost_bridge::instructions::consume_and_execute::{
    build_drift_call_handler, build_drift_short_account_metas, drift_account_metas,
    drift_call_handler,
};
use crate::ghost_bridge::instructions::trigger_and_execute::{
    build_delegate_instruction_data, delegate_instruction_data,
};
use crate::ghost_crank::instructions::delegate_order::{
    build_ghost_order_seeds, ghost_order_seeds,
};
use crate::ghost_crank::state::ghost_order::{GhostOrder, OrderStatus};

pub use crate::ghost_bridge::constants::{DELEGATION_PROGRAM_ID, DRIFT_PROGRAM_ID};

verus! {

pub const DRIFT_EXECUTE_COMPUTE_UNITS: u32 = 200_000;

pub const DELEGATE_COMPUTE_UNITS: u32 = 50_000;

#[derive(Clone, Copy, Debug, Default, PartialEq, Eq)]
pub struct ExecuteTriggerArgs {
    pub redelegate_after_execution: bool,
}

/// Identities of the accounts the operation touches.
#[derive(Clone, Copy, Debug, PartialEq, Eq)]
pub struct ExecuteTrigger {
    pub payer: Pubkey,
    pub ghost_order: Pubkey,
    pub drift_state: Pubkey,
    pub drift_user: Pubkey,
    pub drift_user_stats: Pubkey,
    pub drift_authority: Pubkey,
    pub perp_market: Pubkey,
    pub oracle: Pubkey,
    pub magic_context: Pubkey,
    pub magic_program: Pubkey,
}

#[derive(Clone, Copy, PartialEq, Eq, Debug, Structural)]
pub enum GhostCrankError {
    OrderNotTriggered,
    OrderNotActive,
    OrderExpired,
    InvalidTriggerCondition,
    DriftInstructionError,
    MagicActionFailed,
    RedelegationFailed,
    InvalidPriceFeed,
}

/// The re-delegation call's account list.
pub open spec fn redelegate_account_metas(
    payer: Pubkey,
    ghost_order_pda: Pubkey,
    owner: Pubkey,
    buffer: Pubkey,
    record: Pubkey,
    metadata: Pubkey,
) -> Seq<ShortAccountMeta> {
    seq![
        ShortAccountMeta { pubkey: payer, is_writable: true },
        ShortAccountMeta { pubkey: ghost_order_pda, is_writable: true },
        ShortAccountMeta { pubkey: owner, is_writable: false },
        ShortAccountMeta { pubkey: buffer, is_writable: true },
        ShortAccountMeta { pubkey: record, is_writable: true },
        ShortAccountMeta { pubkey: metadata, is_writable: true },
        ShortAccountMeta { pubkey: SYSTEM_PROGRAM_ID, is_writable: false },
    ]
}

/// The bundled re-delegation call; the first three remaining accounts are
/// the delegation buffer, record and metadata.
pub open spec fn redelegate_handler(
    payer: Pubkey,
    remaining_accounts: Seq<Pubkey>,
    ghost_order_pda: Pubkey,
    owner: Pubkey,
) -> CallHandlerView {
    CallHandlerView {
        escrow_index: DEFAULT_ESCROW_INDEX,
        data: delegate_instruction_data(),
        compute_units: DELEGATE_COMPUTE_UNITS,
        escrow_authority: payer,
        destination_program: DELEGATION_PROGRAM_ID,
        accounts: redelegate_account_metas(
            payer,
            ghost_order_pda,
            owner,
            remaining_accounts[0],
            remaining_accounts[1],
            remaining_accounts[2],
        ),
    }
}

/// The settlement call of an order, built from its stored parameters.
pub open spec fn settlement_handler(order: &GhostOrder, accounts: &ExecuteTrigger) -> CallHandlerView {
    drift_call_handler(
        accounts.payer,
        drift_account_metas(
            accounts.drift_state,
            accounts.drift_user,
            accounts.drift_user_stats,
            accounts.drift_authority,
            accounts.perp_market,
            accounts.oracle,
        ),
        order.market_index,
        order.order_side,
        order.base_asset_amount,
        order.reduce_only,
    )
}

/// The custody change an execution ends with.
pub open spec fn planned_action(
    accounts: &ExecuteTrigger,
    call_handlers: Seq<CallHandlerView>,
) -> MagicActionView {
    MagicActionView::CommitAndUndelegate {
        commit_type: CommitTypeView::WithHandler {
            commited_accounts: seq![accounts.ghost_order],
            call_handlers,
        },
        undelegate_type: UndelegateTypeView::Standalone,
    }
}

/// The settlement call followed by the re-delegation call for an order
/// whose derived address is known.
pub fn redelegation_handlers(
    payer: Pubkey,
    remaining_accounts: &Vec<Pubkey>,
    drift_handler: CallHandler,
    owner: Pubkey,
    ghost_order_pda: Pubkey,
) -> (handlers: Vec<CallHandler>)
    requires
        remaining_accounts@.len() >= 3,
    ensures
        handlers_view(handlers@) == seq![
            drift_handler@,
            redelegate_handler(payer, remaining_accounts@, ghost_order_pda, owner),
        ],
{
    let buffer_pda = remaining_accounts[0];
    let record_pda = remaining_accounts[1];
    let metadata_pda = remaining_accounts[2];
    let delegate_ix_data = build_delegate_instruction_data();
    let mut delegate_accounts: Vec<ShortAccountMeta> = Vec::with_capacity(7);
    delegate_accounts.push(ShortAccountMeta { pubkey: payer, is_writable: true });
    delegate_accounts.push(ShortAccountMeta { pubkey: ghost_order_pda, is_writable: true });
    delegate_accounts.push(ShortAccountMeta { pubkey: owner, is_writable: false });
    delegate_accounts.push(ShortAccountMeta { pubkey: buffer_pda, is_writable: true });
    delegate_accounts.push(ShortAccountMeta { pubkey: record_pda, is_writable: true });
    delegate_accounts.push(ShortAccountMeta { pubkey: metadata_pda, is_writable: true });
    delegate_accounts.push(ShortAccountMeta { pubkey: SYSTEM_PROGRAM_ID, is_writable: false });
    assert(delegate_accounts@ =~= redelegate_account_metas(
        payer,
        ghost_order_pda,
        owner,
        remaining_accounts@[0],
        remaining_accounts@[1],
        remaining_accounts@[2],
    ));
    let redelegate = CallHandler {
        destination_program: DELEGATION_PROGRAM_ID,
        accounts: delegate_accounts,
        args: ActionArgs::new(delegate_ix_data),
        escrow_authority: payer,
        compute_units: DELEGATE_COMPUTE_UNITS,
    };
    let ghost first = drift_handler@;
    let ghost second = redelegate@;
    let mut handlers: Vec<CallHandler> = Vec::new();
    handlers.push(drift_handler);
    handlers.push(redelegate);
    assert(handlers_view(handlers@) =~= seq![first, second]);
    handlers
}

/// The handlers to bundle when re-delegation is asked for. Where the three
/// delegation accounts were not supplied, re-delegation is left out and
/// the settlement call goes alone; where the order's address cannot be
/// derived, the operation fails.
pub fn build_handlers_with_redelegation(
    payer: Pubkey,
    remaining_accounts: &Vec<Pubkey>,
    drift_handler: CallHandler,
    owner: Pubkey,
    order_id: u64,
    _bump: u8,
    program_id: &Pubkey,
) -> (result: Result<Vec<CallHandler>, GhostCrankError>)
    ensures
        remaining_accounts@.len() < 3 ==> {
            &&& result matches Ok(handlers)
            &&& handlers_view(handlers@) == seq![drift_handler@]
        },
        remaining_accounts@.len() >= 3 ==> match program_address(
            ghost_order_seeds(owner, order_id),
            program_id@,
        ) {
            None => {
                &&& result matches Err(e)
                &&& e == GhostCrankError::RedelegationFailed
            },
            Some((address, _)) => {
                &&& result matches Ok(handlers)
                &&& handlers@.len() == 2
                &&& handlers@[0]@ == drift_handler@
                &&& handlers@[1]@.accounts[1].pubkey@ == address
                &&& handlers@[1]@ == redelegate_handler(
                    payer,
                    remaining_accounts@,
                    handlers@[1]@.accounts[1].pubkey,
                    owner,
                )
            },
        },
{
    if remaining_accounts.len() < 3 {
        let ghost only = drift_handler@;
        let mut handlers: Vec<CallHandler> = Vec::new();
        handlers.push(drift_handler);
        assert(handlers_view(handlers@) =~= seq![only]);
        return Ok(handlers);
    }
    let seeds = build_ghost_order_seeds(&owner, order_id);
    let ghost_order_pda = match try_find_program_address(&seeds, program_id) {
        Some((address, _)) => address,
        None => {
            return Err(GhostCrankError::RedelegationFailed);
        },
    };
    let handlers = redelegation_handlers(
        payer,
        remaining_accounts,
        drift_handler,
        owner,
        ghost_order_pda,
    );
    proof {
        let expected = redelegate_handler(payer, remaining_accounts@, ghost_order_pda, owner);
        assert(handlers_view(handlers@)[0] == drift_handler@);
        assert(handlers_view(handlers@)[1] == expected);
        assert(handlers_view(handlers@).len() == 2);
        assert(expected.accounts[1].pubkey == ghost_order_pda);
    }
    Ok(handlers)
}

/// Whether the order can be settled at `slot`: it is armed and its
/// execution window has not passed.
pub open spec fn can_settle(order: &GhostOrder, slot: u64) -> bool {
    order.status == OrderStatus::ReadyToExecute && slot <= order.ready_expires_at
}

/// Settles an armed order inside its execution window, or refuses with no
/// effect. An order that is not armed is refused as not triggered, one
/// whose window has passed as expired.
pub fn handler(
    order: &mut GhostOrder,
    accounts: &ExecuteTrigger,
    args: &ExecuteTriggerArgs,
    remaining_accounts: &Vec<Pubkey>,
    slot: u64,
    unix_timestamp: i64,
    program_id: &Pubkey,
) -> (result: Result<MagicAction, GhostCrankError>)
    ensures
        old(order).status != OrderStatus::ReadyToExecute ==> {
            &&& result matches Err(e)
            &&& e == GhostCrankError::OrderNotTriggered
        },
        old(order).status == OrderStatus::ReadyToExecute && slot > old(order).ready_expires_at ==> {
            &&& result matches Err(e)
            &&& e == GhostCrankError::OrderExpired
        },
        result is Err ==> *final(order) == *old(order),
        result is Ok ==> {
            &&& *final(order) == (GhostOrder {
                status: OrderStatus::Executed,
                executed_at: unix_timestamp,
                ..*old(order)
            })
            &&& old(order).status.may_become(final(order).status)
        },
        can_settle(old(order), slot) && !(args.redelegate_after_execution
            && remaining_accounts@.len() >= 3) ==> {
            &&& result matches Ok(action)
            &&& action@ == planned_action(accounts, seq![settlement_handler(old(order), accounts)])
        },
        can_settle(old(order), slot) && args.redelegate_after_execution
            && remaining_accounts@.len() >= 3 ==> match program_address(
            ghost_order_seeds(old(order).owner, old(order).order_id),
            program_id@,
        ) {
            None => {
                &&& result matches Err(e)
                &&& e == GhostCrankError::RedelegationFailed
            },
            Some((address, _)) => {
                &&& result matches Ok(action)
                &&& exists|pda: Pubkey|
                    pda@ == address && action@ == planned_action(
                        accounts,
                        seq![
                            settlement_handler(old(order), accounts),
                            redelegate_handler(
                                accounts.payer,
                                remaining_accounts@,
                                pda,
                                old(order).owner,
                            ),
                        ],
                    )
            },
        },
{
    if order.status != OrderStatus::ReadyToExecute {
        return Err(GhostCrankError::OrderNotTriggered);
    }
    if order.ready_expires_at < 0 || slot > order.ready_expires_at as u64 {
        return Err(GhostCrankError::OrderExpired);
    }
    let drift_accounts = build_drift_short_account_metas(
        accounts.drift_state,
        accounts.drift_user,
        accounts.drift_user_stats,
        accounts.drift_authority,
        accounts.perp_market,
        accounts.oracle,
    );
    let settlement = build_drift_call_handler(
        accounts.payer,
        drift_accounts,
        order.market_index,
        order.order_side,
        order.base_asset_amount,
        order.reduce_only,
    );
    let ghost settlement_view = settlement@;
    let call_handlers = if args.redelegate_after_execution {
        match build_handlers_with_redelegation(
            accounts.payer,
            remaining_accounts,
            settlement,
            order.owner,
            order.order_id,
            order.bump,
            program_id,
        ) {
            Ok(handlers) => handlers,
            Err(e) => {
                return Err(e);
            },
        }
    } else {
        let mut handlers: Vec<CallHandler> = Vec::new();
        handlers.push(settlement);
        assert(handlers_view(handlers@) =~= seq![settlement_view]);
        handlers
    };
    proof {
        if args.redelegate_after_execution && remaining_accounts@.len() >= 3 {
            let pda = call_handlers@[1]@.accounts[1].pubkey;
            assert(handlers_view(call_handlers@) =~= seq![
                settlement_view,
                redelegate_handler(accounts.payer, remaining_accounts@, pda, old(order).owner),
            ]);
        }
    }
    order.status = OrderStatus::Executed;
    order.executed_at = unix_timestamp;
    let mut commited_accounts: Vec<Pubkey> = Vec::new();
    commited_accounts.push(accounts.ghost_order);
    assert(commited_accounts@ =~= seq![accounts.ghost_order]);
    Ok(
        MagicAction::CommitAndUndelegate(
            CommitAndUndelegate {
                commit_type: CommitType::WithHandler { commited_accounts, call_handlers },
                undelegate_type: UndelegateType::Standalone,
            },
        ),
    )
}

} // verus!
