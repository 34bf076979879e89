//! Trigger check and settlement of a ciphertext order in one atomic step:
//! the executor reveals the parameters, the engine holds them against the
//! stored commitment, reads the oracle and, when the trigger fires, removes
//! the commitment, marks the order executed and plans the custody hand-back
//! with the settlement call bundled.

use vstd::prelude::*;
use vstd::bytes::spec_u64_to_le_bytes;
use crate::actions::{
    handlers_view, ActionArgs, CallHandler, CallHandlerView, CommitAndUndelegate, CommitType,
    CommitTypeView, MagicAction, MagicActionView, ShortAccountMeta, UndelegateType,
    UndelegateTypeView, DEFAULT_ESCROW_INDEX,
};
use crate::encoding::{bytes32_eq, push_bytes, push_u64_le, Pubkey};
use crate::ghost_bridge::constants::{DELEGATION_PROGRAM_ID, SYSTEM_PROGRAM_ID};
use crate::ghost_bridge::errors::GhostBridgeError;
use crate::ghost_bridge::instructions::check_price_update::{
    pyth_feed_is_valid, pyth_feed_price, read_pyth_price,
};
use crate::ghost_bridge::instructions::consume_and_execute::{
    build_drift_call_handler, build_drift_short_account_metas, condition_of, drift_account_metas,
    drift_call_handler, side_of,
};
use crate::ghost_bridge::state::compressed_order::{
    CompressedGhostOrder, OrderSide, TriggerCondition,
};
use crate::ghost_bridge::state::encrypted_order::{EncryptedOrder, EncryptedOrderStatus};
use crate::ghost_bridge::state::executor_authority::{position, ExecutorAuthority};

verus! {

pub const DRIFT_EXECUTE_COMPUTE_UNITS: u32 = 200_000;

pub const DELEGATE_COMPUTE_UNITS: u32 = 50_000;

/// Selector of the delegation program's delegate method.
pub const DELEGATE_DISCRIMINATOR: [u8; 8] = [0x90, 0xf6, 0x7a, 0x11, 0x7e, 0x8c, 0x4f, 0x00];

/// The revealed order and whether to delegate again after settlement.
#[derive(Clone, Debug, PartialEq, Eq)]
pub struct TriggerAndExecuteArgs {
    pub salt: [u8; 16],
    pub order_id: u64,
    pub market_index: u16,
    pub trigger_price: i64,
    pub trigger_condition: u8,
    pub order_side: u8,
    pub base_asset_amount: u64,
    pub reduce_only: bool,
    pub expiry: i64,
    pub redelegate_after: bool,
}

/// Identities of the accounts the operation touches.
#[derive(Clone, Copy, Debug, PartialEq, Eq)]
pub struct TriggerAndExecute {
    pub payer: Pubkey,
    pub encrypted_order: Pubkey,
    pub executor_authority: Pubkey,
    pub price_feed: Pubkey,
    pub drift_state: Pubkey,
    pub drift_user: Pubkey,
    pub drift_user_stats: Pubkey,
    pub drift_authority: Pubkey,
    pub perp_market: Pubkey,
    pub oracle: Pubkey,
    pub magic_context: Pubkey,
    pub magic_program: Pubkey,
}

/// The record of a triggered and settled order.
#[derive(Clone, Copy, Debug, PartialEq, Eq)]
pub struct OrderTriggeredAndExecuted {
    pub owner: Pubkey,
    pub order_hash: [u8; 32],
    pub market_index: u16,
    pub order_side: u8,
    pub base_asset_amount: u64,
    pub trigger_price: i64,
    pub execution_price: i64,
    pub executed_at: i64,
    pub redelegated: bool,
}

/// How an accepted call ended.
#[derive(Clone, Debug, PartialEq, Eq)]
pub enum TriggerOutcome {
    /// The order had expired; it is now cancelled.
    Expired,
    /// The price does not satisfy the trigger; nothing changed.
    NotTriggered,
    /// The order is executed; `action` is to be invoked last.
    Executed { event: OrderTriggeredAndExecuted, action: MagicAction },
}

/// What the engine decides for a call.
pub ghost enum Verdict {
    Refuse(GhostBridgeError),
    Expire,
    Skip,
    Execute,
}

/// The call data of the re-delegation call: the selector, then an 8-byte
/// zero.
pub open spec fn delegate_instruction_data() -> Seq<u8> {
    DELEGATE_DISCRIMINATOR@ + spec_u64_to_le_bytes(0)
}

/// The re-delegation call's account list.
pub open spec fn redelegate_account_metas(
    payer: Pubkey,
    encrypted_order_key: Pubkey,
    buffer: Pubkey,
    record: Pubkey,
    metadata: Pubkey,
) -> Seq<ShortAccountMeta> {
    seq![
        ShortAccountMeta { pubkey: payer, is_writable: true },
        ShortAccountMeta { pubkey: encrypted_order_key, is_writable: true },
        ShortAccountMeta { pubkey: buffer, is_writable: true },
        ShortAccountMeta { pubkey: record, is_writable: true },
        ShortAccountMeta { pubkey: metadata, is_writable: true },
        ShortAccountMeta { pubkey: SYSTEM_PROGRAM_ID, is_writable: false },
    ]
}

/// The bundled re-delegation call; the first three remaining accounts are
/// the delegation buffer, record and metadata.
pub open spec fn redelegate_handler(
    payer: Pubkey,
    remaining_accounts: Seq<Pubkey>,
    encrypted_order_key: Pubkey,
) -> CallHandlerView {
    CallHandlerView {
        escrow_index: DEFAULT_ESCROW_INDEX,
        data: delegate_instruction_data(),
        compute_units: DELEGATE_COMPUTE_UNITS,
        escrow_authority: payer,
        destination_program: DELEGATION_PROGRAM_ID,
        accounts: redelegate_account_metas(
            payer,
            encrypted_order_key,
            remaining_accounts[0],
            remaining_accounts[1],
            remaining_accounts[2],
        ),
    }
}

/// Builds the call data of the re-delegation call.
pub fn build_delegate_instruction_data() -> (data: Vec<u8>)
    ensures
        data@ == delegate_instruction_data(),
{
    let mut data: Vec<u8> = Vec::with_capacity(16);
    push_bytes(&mut data, DELEGATE_DISCRIMINATOR.as_slice());
    push_u64_le(&mut data, 0);
    assert(data@ =~= delegate_instruction_data());
    data
}

/// Builds the bundled re-delegation call; fails where the delegation
/// accounts were not supplied.
pub fn build_redelegate_handler(
    payer: Pubkey,
    remaining_accounts: &Vec<Pubkey>,
    encrypted_order_key: Pubkey,
    _owner: Pubkey,
) -> (result: Result<CallHandler, GhostBridgeError>)
    ensures
        remaining_accounts@.len() < 3 ==> {
            &&& result matches Err(e)
            &&& e == GhostBridgeError::MagicActionFailed
        },
        remaining_accounts@.len() >= 3 ==> {
            &&& result matches Ok(handler)
            &&& handler@ == redelegate_handler(payer, remaining_accounts@, encrypted_order_key)
        },
{
    if remaining_accounts.len() < 3 {
        return Err(GhostBridgeError::MagicActionFailed);
    }
    let buffer_pda = remaining_accounts[0];
    let record_pda = remaining_accounts[1];
    let metadata_pda = remaining_accounts[2];
    let delegate_ix_data = build_delegate_instruction_data();
    let mut delegate_accounts: Vec<ShortAccountMeta> = Vec::with_capacity(6);
    delegate_accounts.push(ShortAccountMeta { pubkey: payer, is_writable: true });
    delegate_accounts.push(ShortAccountMeta { pubkey: encrypted_order_key, is_writable: true });
    delegate_accounts.push(ShortAccountMeta { pubkey: buffer_pda, is_writable: true });
    delegate_accounts.push(ShortAccountMeta { pubkey: record_pda, is_writable: true });
    delegate_accounts.push(ShortAccountMeta { pubkey: metadata_pda, is_writable: true });
    delegate_accounts.push(ShortAccountMeta { pubkey: SYSTEM_PROGRAM_ID, is_writable: false });
    assert(delegate_accounts@ =~= redelegate_account_metas(
        payer,
        encrypted_order_key,
        remaining_accounts@[0],
        remaining_accounts@[1],
        remaining_accounts@[2],
    ));
    Ok(
        CallHandler {
            destination_program: DELEGATION_PROGRAM_ID,
            accounts: delegate_accounts,
            args: ActionArgs::new(delegate_ix_data),
            escrow_authority: payer,
            compute_units: DELEGATE_COMPUTE_UNITS,
        },
    )
}

impl TriggerAndExecuteArgs {
    /// The order these arguments reveal, for the owner and feed that the
    /// stored record names.
    pub open spec fn order(&self, stored: &EncryptedOrder) -> CompressedGhostOrder {
        CompressedGhostOrder {
            owner: stored.owner,
            order_id: self.order_id,
            market_index: self.market_index,
            trigger_price: self.trigger_price,
            trigger_condition: condition_of(self.trigger_condition),
            order_side: side_of(self.order_side),
            base_asset_amount: self.base_asset_amount,
            reduce_only: self.reduce_only,
            expiry: self.expiry,
            feed_id: stored.feed_id,
            salt: self.salt,
        }
    }
}

/// What the engine decides for a call; the checks are made in this order
/// and the first that settles the matter decides.
pub open spec fn verdict(
    order: &EncryptedOrder,
    registry: &ExecutorAuthority,
    accounts: &TriggerAndExecute,
    args: &TriggerAndExecuteArgs,
    remaining_accounts: Seq<Pubkey>,
    feed_owner: Pubkey,
    feed_data: Seq<u8>,
    unix_timestamp: i64,
) -> Verdict {
    let revealed = args.order(order);
    if args.trigger_condition > 1 {
        Verdict::Refuse(GhostBridgeError::InvalidTriggerCondition)
    } else if args.order_side > 1 {
        Verdict::Refuse(GhostBridgeError::InvalidOrderData)
    } else if order.status != EncryptedOrderStatus::Active {
        Verdict::Refuse(GhostBridgeError::OrderNotActive)
    } else if !(registry.executors().contains(accounts.payer@) || registry.owner@
        == accounts.payer@) {
        Verdict::Refuse(GhostBridgeError::ExecutorNotAuthorized)
    } else if revealed.spec_hash() != order.order_hash@ {
        Verdict::Refuse(GhostBridgeError::OrderHashMismatch)
    } else if revealed.spec_is_expired(unix_timestamp) {
        Verdict::Expire
    } else if !pyth_feed_is_valid(feed_owner, feed_data) {
        Verdict::Refuse(GhostBridgeError::InvalidPriceFeed)
    } else if !revealed.trigger_condition.holds(
        revealed.trigger_price as int,
        pyth_feed_price(feed_data) as int,
    ) {
        Verdict::Skip
    } else if !registry.hashes().contains(order.order_hash@) {
        Verdict::Refuse(GhostBridgeError::OrderHashNotFound)
    } else if args.redelegate_after && remaining_accounts.len() < 3 {
        Verdict::Refuse(GhostBridgeError::MagicActionFailed)
    } else {
        Verdict::Execute
    }
}

/// The pending commitments once `hash` has left them, if it was among
/// them.
pub open spec fn without(hashes: Seq<Seq<u8>>, hash: Seq<u8>) -> Seq<Seq<u8>> {
    if hashes.contains(hash) {
        hashes.remove(position(hashes, hash))
    } else {
        hashes
    }
}

/// The custody change an execution ends with: snapshot the order and the
/// registry, run the settlement call and, where asked, the re-delegation
/// call, and give custody back.
pub open spec fn planned_action(
    accounts: &TriggerAndExecute,
    args: &TriggerAndExecuteArgs,
    remaining_accounts: Seq<Pubkey>,
) -> MagicActionView {
    let settlement = drift_call_handler(
        accounts.payer,
        drift_account_metas(
            accounts.drift_state,
            accounts.drift_user,
            accounts.drift_user_stats,
            accounts.drift_authority,
            accounts.perp_market,
            accounts.oracle,
        ),
        args.market_index,
        side_of(args.order_side),
        args.base_asset_amount,
        args.reduce_only,
    );
    let call_handlers = if args.redelegate_after {
        seq![
            settlement,
            redelegate_handler(accounts.payer, remaining_accounts, accounts.encrypted_order),
        ]
    } else {
        seq![settlement]
    };
    MagicActionView::CommitAndUndelegate {
        commit_type: CommitTypeView::WithHandler {
            commited_accounts: seq![accounts.encrypted_order, accounts.executor_authority],
            call_handlers,
        },
        undelegate_type: UndelegateTypeView::Standalone,
    }
}

/// Checks the trigger of a ciphertext order and settles it when it fires.
///
/// A refusal changes nothing. An expired order is cancelled and its
/// commitment leaves the registry in the same step. A price that does not
/// satisfy the trigger changes nothing. Otherwise the commitment is
/// removed, the order is marked executed at the observed price, and the
/// custody hand-back with the bundled settlement call is returned for the
/// host to invoke last.
pub fn handler(
    order: &mut EncryptedOrder,
    registry: &mut ExecutorAuthority,
    accounts: &TriggerAndExecute,
    args: &TriggerAndExecuteArgs,
    remaining_accounts: &Vec<Pubkey>,
    feed_owner: &Pubkey,
    feed_data: &[u8],
    unix_timestamp: i64,
) -> (result: Result<TriggerOutcome, GhostBridgeError>)
    requires
        old(registry).wf(),
    ensures
        final(registry).wf(),
        final(registry).same_but_hashes(old(registry)),
        final(registry).order_count == old(registry).order_count,
        final(order).status.is_terminal() && !old(order).status.is_terminal()
            ==> !final(registry).hashes().contains(old(order).order_hash@),
        match verdict(
            old(order),
            old(registry),
            accounts,
            args,
            remaining_accounts@,
            *feed_owner,
            feed_data@,
            unix_timestamp,
        ) {
            Verdict::Refuse(error) => {
                &&& result matches Err(e)
                &&& e == error
                &&& *final(order) == *old(order)
                &&& *final(registry) == *old(registry)
            },
            Verdict::Expire => {
                &&& result matches Ok(outcome)
                &&& outcome is Expired
                &&& *final(order) == (EncryptedOrder {
                    status: EncryptedOrderStatus::Cancelled,
                    ..*old(order)
                })
                &&& final(registry).hashes() == without(
                    old(registry).hashes(),
                    old(order).order_hash@,
                )
                &&& !final(registry).hashes().contains(old(order).order_hash@)
                &&& old(registry).hashes().contains(old(order).order_hash@)
                    ==> final(registry).with_hash_removed(old(registry), old(order).order_hash@)
                &&& !old(registry).hashes().contains(old(order).order_hash@) ==> *final(registry)
                    == *old(registry)
            },
            Verdict::Skip => {
                &&& result matches Ok(outcome)
                &&& outcome is NotTriggered
                &&& *final(order) == *old(order)
                &&& *final(registry) == *old(registry)
            },
            Verdict::Execute => {
                let price = pyth_feed_price(feed_data@);
                &&& result matches Ok(outcome)
                &&& outcome matches TriggerOutcome::Executed { event, action }
                &&& *final(order) == (EncryptedOrder {
                    status: EncryptedOrderStatus::Executed,
                    triggered_at: unix_timestamp,
                    execution_price: price,
                    ..*old(order)
                })
                &&& final(registry).with_hash_removed(old(registry), old(order).order_hash@)
                &&& action@ == planned_action(accounts, args, remaining_accounts@)
                &&& action.returns_custody()
                &&& event == (OrderTriggeredAndExecuted {
                    owner: old(order).owner,
                    order_hash: old(order).order_hash,
                    market_index: args.market_index,
                    order_side: args.order_side,
                    base_asset_amount: args.base_asset_amount,
                    trigger_price: args.trigger_price,
                    execution_price: price,
                    executed_at: unix_timestamp,
                    redelegated: args.redelegate_after,
                })
            },
        },
{
    let trigger_condition = match TriggerCondition::from_u8(args.trigger_condition) {
        Some(condition) => condition,
        None => {
            return Err(GhostBridgeError::InvalidTriggerCondition);
        },
    };
    let order_side = match OrderSide::from_u8(args.order_side) {
        Some(side) => side,
        None => {
            return Err(GhostBridgeError::InvalidOrderData);
        },
    };
    let owner = order.owner;
    let stored_hash = order.order_hash;
    if order.status != EncryptedOrderStatus::Active {
        return Err(GhostBridgeError::OrderNotActive);
    }
    if !(registry.is_authorized_executor(&accounts.payer) || bytes32_eq(
        &registry.owner,
        &accounts.payer,
    )) {
        return Err(GhostBridgeError::ExecutorNotAuthorized);
    }
    let revealed = CompressedGhostOrder {
        owner,
        order_id: args.order_id,
        market_index: args.market_index,
        trigger_price: args.trigger_price,
        trigger_condition,
        order_side,
        base_asset_amount: args.base_asset_amount,
        reduce_only: args.reduce_only,
        expiry: args.expiry,
        feed_id: order.feed_id,
        salt: args.salt,
    };
    assert(revealed == args.order(old(order)));
    let computed_hash = revealed.compute_hash();
    if !bytes32_eq(&computed_hash, &stored_hash) {
        return Err(GhostBridgeError::OrderHashMismatch);
    }
    if revealed.is_expired(unix_timestamp) {
        if registry.has_order_hash(&stored_hash) {
            let removed = registry.remove_order_hash(stored_hash);
        }
        order.status = EncryptedOrderStatus::Cancelled;
        return Ok(TriggerOutcome::Expired);
    }
    let current_price = match read_pyth_price(feed_owner, feed_data) {
        Ok(price) => price,
        Err(e) => {
            return Err(e);
        },
    };
    if !revealed.check_trigger(current_price) {
        return Ok(TriggerOutcome::NotTriggered);
    }
    if !registry.has_order_hash(&stored_hash) {
        return Err(GhostBridgeError::OrderHashNotFound);
    }
    let drift_accounts = build_drift_short_account_metas(
        accounts.drift_state,
        accounts.drift_user,
        accounts.drift_user_stats,
        accounts.drift_authority,
        accounts.perp_market,
        accounts.oracle,
    );
    let settlement = build_drift_call_handler(
        accounts.payer,
        drift_accounts,
        args.market_index,
        order_side,
        args.base_asset_amount,
        args.reduce_only,
    );
    let ghost settlement_view = settlement@;
    let mut call_handlers: Vec<CallHandler> = Vec::new();
    call_handlers.push(settlement);
    if args.redelegate_after {
        let redelegate = match build_redelegate_handler(
            accounts.payer,
            remaining_accounts,
            accounts.encrypted_order,
            owner,
        ) {
            Ok(handler) => handler,
            Err(e) => {
                return Err(e);
            },
        };
        let ghost redelegate_view = redelegate@;
        call_handlers.push(redelegate);
        assert(handlers_view(call_handlers@) =~= seq![settlement_view, redelegate_view]);
    } else {
        assert(handlers_view(call_handlers@) =~= seq![settlement_view]);
    }

    let removed = registry.remove_order_hash(stored_hash);
    order.status = EncryptedOrderStatus::Executed;
    order.triggered_at = unix_timestamp;
    order.execution_price = current_price;

    let mut commited_accounts: Vec<Pubkey> = Vec::new();
    commited_accounts.push(accounts.encrypted_order);
    commited_accounts.push(accounts.executor_authority);
    assert(commited_accounts@ =~= seq![accounts.encrypted_order, accounts.executor_authority]);
    let action = MagicAction::CommitAndUndelegate(
        CommitAndUndelegate {
            commit_type: CommitType::WithHandler { commited_accounts, call_handlers },
            undelegate_type: UndelegateType::Standalone,
        },
    );
    Ok(
        TriggerOutcome::Executed {
            event: OrderTriggeredAndExecuted {
                owner,
                order_hash: stored_hash,
                market_index: args.market_index,
                order_side: args.order_side,
                base_asset_amount: args.base_asset_amount,
                trigger_price: args.trigger_price,
                execution_price: current_price,
                executed_at: unix_timestamp,
                redelegated: args.redelegate_after,
            },
            action,
        },
    )
}

} // verus!
