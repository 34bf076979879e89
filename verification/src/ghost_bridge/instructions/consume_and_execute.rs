//! Direct execution of a hash-committed order: the caller reveals the
//! parameters, the engine recomputes the commitment, and only a pending,
//! unexpired, triggered order is consumed and settled.

use vstd::prelude::*;
use crate::actions::{
    ActionArgs, CallHandler, CallHandlerView, CommitAndUndelegate, CommitType, CommitTypeView,
    MagicAction, MagicActionView, ShortAccountMeta, UndelegateType, UndelegateTypeView,
    DEFAULT_ESCROW_INDEX,
};
use crate::encoding::Pubkey;
use crate::ghost_bridge::constants::DRIFT_PROGRAM_ID;
use crate::ghost_bridge::drift_cpi::{build_drift_place_perp_order, market_order_bytes};
use crate::ghost_bridge::errors::GhostBridgeError;
use crate::ghost_bridge::state::compressed_order::{
    CompressedGhostOrder, OrderSide, TriggerCondition,
};
use crate::ghost_bridge::state::executor_authority::{
    lemma_remove_keeps_distinct, position, remove_outcome, ExecutorAuthority,
};

verus! {

pub const DRIFT_EXECUTE_COMPUTE_UNITS: u32 = 200_000;

/// The revealed order and how to execute it.
#[derive(Clone, Debug, PartialEq, Eq)]
pub struct ConsumeAndExecuteArgs {
    pub order_id: u64,
    pub market_index: u16,
    pub trigger_price: i64,
    pub trigger_condition: u8,
    pub order_side: u8,
    pub base_asset_amount: u64,
    pub reduce_only: bool,
    pub expiry: i64,
    pub feed_id: [u8; 32],
    pub salt: [u8; 16],
    pub current_price: i64,
    pub keep_delegated: bool,
}

/// Identities of the accounts the operation touches.
#[derive(Clone, Copy, Debug, PartialEq, Eq)]
pub struct ConsumeAndExecute {
    pub payer: Pubkey,
    pub executor_authority: Pubkey,
    pub drift_state: Pubkey,
    pub drift_user: Pubkey,
    pub drift_user_stats: Pubkey,
    pub drift_authority: Pubkey,
    pub perp_market: Pubkey,
    pub oracle: Pubkey,
    pub magic_context: Pubkey,
    pub magic_program: Pubkey,
}

/// The record of a successful execution.
#[derive(Clone, Copy, Debug, PartialEq, Eq)]
pub struct GhostOrderExecuted {
    pub owner: Pubkey,
    pub order_id: u64,
    pub order_hash: [u8; 32],
    pub market_index: u16,
    pub execution_price: i64,
}

/// What a successful execution hands back: the event to publish and the
/// custody change to invoke last.
#[derive(Clone, Debug, PartialEq, Eq)]
pub struct ConsumeAndExecuteOutcome {
    pub event: GhostOrderExecuted,
    pub action: MagicAction,
}

/// The condition a wire byte stands for; bytes above 1 stand for none and
/// are rejected before this is asked.
pub open spec fn condition_of(byte: u8) -> TriggerCondition {
    if byte == 0 {
        TriggerCondition::Above
    } else {
        TriggerCondition::Below
    }
}

/// The side a wire byte stands for; bytes above 1 stand for none and are
/// rejected before this is asked.
pub open spec fn side_of(byte: u8) -> OrderSide {
    if byte == 0 {
        OrderSide::Long
    } else {
        OrderSide::Short
    }
}

/// The settlement call's account list, in the venue's fixed order: state,
/// trader account, trader authority, trader stats, market, oracle.
pub open spec fn drift_account_metas(
    drift_state_key: Pubkey,
    drift_user_key: Pubkey,
    drift_user_stats_key: Pubkey,
    authority_key: Pubkey,
    perp_market_key: Pubkey,
    oracle_key: Pubkey,
) -> Seq<ShortAccountMeta> {
    seq![
        ShortAccountMeta { pubkey: drift_state_key, is_writable: false },
        ShortAccountMeta { pubkey: drift_user_key, is_writable: true },
        ShortAccountMeta { pubkey: authority_key, is_writable: false },
        ShortAccountMeta { pubkey: drift_user_stats_key, is_writable: true },
        ShortAccountMeta { pubkey: perp_market_key, is_writable: true },
        ShortAccountMeta { pubkey: oracle_key, is_writable: false },
    ]
}

/// The bundled settlement call: a market order on the venue, paid from the
/// payer's default escrow.
pub open spec fn drift_call_handler(
    payer: Pubkey,
    accounts: Seq<ShortAccountMeta>,
    market_index: u16,
    side: OrderSide,
    base_asset_amount: u64,
    reduce_only: bool,
) -> CallHandlerView {
    CallHandlerView {
        escrow_index: DEFAULT_ESCROW_INDEX,
        data: market_order_bytes(market_index, side, base_asset_amount, reduce_only),
        compute_units: DRIFT_EXECUTE_COMPUTE_UNITS,
        escrow_authority: payer,
        destination_program: DRIFT_PROGRAM_ID,
        accounts,
    }
}

/// Builds the settlement call's account list.
pub fn build_drift_short_account_metas(
    drift_state_key: Pubkey,
    drift_user_key: Pubkey,
    drift_user_stats_key: Pubkey,
    authority_key: Pubkey,
    perp_market_key: Pubkey,
    oracle_key: Pubkey,
) -> (metas: Vec<ShortAccountMeta>)
    ensures
        metas@ == drift_account_metas(
            drift_state_key,
            drift_user_key,
            drift_user_stats_key,
            authority_key,
            perp_market_key,
            oracle_key,
        ),
{
    let mut metas: Vec<ShortAccountMeta> = Vec::with_capacity(6);
    metas.push(ShortAccountMeta { pubkey: drift_state_key, is_writable: false });
    metas.push(ShortAccountMeta { pubkey: drift_user_key, is_writable: true });
    metas.push(ShortAccountMeta { pubkey: authority_key, is_writable: false });
    metas.push(ShortAccountMeta { pubkey: drift_user_stats_key, is_writable: true });
    metas.push(ShortAccountMeta { pubkey: perp_market_key, is_writable: true });
    metas.push(ShortAccountMeta { pubkey: oracle_key, is_writable: false });
    assert(metas@ =~= drift_account_metas(
        drift_state_key,
        drift_user_key,
        drift_user_stats_key,
        authority_key,
        perp_market_key,
        oracle_key,
    ));
    metas
}

/// Builds the bundled settlement call.
pub fn build_drift_call_handler(
    payer: Pubkey,
    accounts: Vec<ShortAccountMeta>,
    market_index: u16,
    side: OrderSide,
    base_asset_amount: u64,
    reduce_only: bool,
) -> (handler: CallHandler)
    ensures
        handler@ == drift_call_handler(
            payer,
            accounts@,
            market_index,
            side,
            base_asset_amount,
            reduce_only,
        ),
{
    let data = build_drift_place_perp_order(market_index, side, base_asset_amount, reduce_only);
    CallHandler {
        destination_program: DRIFT_PROGRAM_ID,
        accounts,
        args: ActionArgs::new(data),
        escrow_authority: payer,
        compute_units: DRIFT_EXECUTE_COMPUTE_UNITS,
    }
}

impl ConsumeAndExecuteArgs {
    /// The order these arguments reveal, as owned by `owner`.
    pub open spec fn order(&self, owner: Pubkey) -> CompressedGhostOrder {
        CompressedGhostOrder {
            owner,
            order_id: self.order_id,
            market_index: self.market_index,
            trigger_price: self.trigger_price,
            trigger_condition: condition_of(self.trigger_condition),
            order_side: side_of(self.order_side),
            base_asset_amount: self.base_asset_amount,
            reduce_only: self.reduce_only,
            expiry: self.expiry,
            feed_id: self.feed_id,
            salt: self.salt,
        }
    }
}

/// Why the operation is refused, if it is; the checks are made in this
/// order and the first that fails decides. A reveal whose recomputed
/// digest is not among the pending commitments (a wrong salt, an altered
/// parameter) is a mismatch.
pub open spec fn rejection(
    executor: &ExecutorAuthority,
    args: &ConsumeAndExecuteArgs,
    unix_timestamp: i64,
) -> Option<GhostBridgeError> {
    let order = args.order(executor.owner);
    if args.trigger_condition > 1 {
        Some(GhostBridgeError::InvalidTriggerCondition)
    } else if args.order_side > 1 {
        Some(GhostBridgeError::InvalidOrderData)
    } else if !executor.hashes().contains(order.spec_hash()) {
        Some(GhostBridgeError::OrderHashMismatch)
    } else if order.spec_is_expired(unix_timestamp) {
        Some(GhostBridgeError::OrderExpired)
    } else if !order.trigger_condition.holds(order.trigger_price as int, args.current_price as int) {
        Some(GhostBridgeError::TriggerConditionNotMet)
    } else {
        None
    }
}

/// The custody change a successful execution ends with: snapshot the
/// registry and run the settlement call, giving custody back unless the
/// caller keeps it.
pub open spec fn planned_action(
    accounts: &ConsumeAndExecute,
    args: &ConsumeAndExecuteArgs,
) -> MagicActionView {
    let commit = CommitTypeView::WithHandler {
        commited_accounts: seq![accounts.executor_authority],
        call_handlers: seq![
            drift_call_handler(
                accounts.payer,
                drift_account_metas(
                    accounts.drift_state,
                    accounts.drift_user,
                    accounts.drift_user_stats,
                    accounts.drift_authority,
                    accounts.perp_market,
                    accounts.oracle,
                ),
                args.market_index,
                side_of(args.order_side),
                args.base_asset_amount,
                args.reduce_only,
            ),
        ],
    };
    if args.keep_delegated {
        MagicActionView::Commit(commit)
    } else {
        MagicActionView::CommitAndUndelegate {
            commit_type: commit,
            undelegate_type: UndelegateTypeView::Standalone,
        }
    }
}

/// A reveal that repeats every field of a pending order is accepted while
/// the order is not expired and the price satisfies its trigger; a reveal
/// whose digest is not pending, as with another salt, is a mismatch.
pub proof fn lemma_reveal(
    executor: &ExecutorAuthority,
    right: &ConsumeAndExecuteArgs,
    wrong: &ConsumeAndExecuteArgs,
    unix_timestamp: i64,
)
    requires
        executor.wf(),
        right.trigger_condition <= 1,
        right.order_side <= 1,
        wrong.trigger_condition <= 1,
        wrong.order_side <= 1,
        executor.hashes().contains(right.order(executor.owner).spec_hash()),
        !right.order(executor.owner).spec_is_expired(unix_timestamp),
        condition_of(right.trigger_condition).holds(
            right.trigger_price as int,
            right.current_price as int,
        ),
        !executor.hashes().contains(wrong.order(executor.owner).spec_hash()),
    ensures
        rejection(executor, right, unix_timestamp) is None,
        rejection(executor, wrong, unix_timestamp) == Some(GhostBridgeError::OrderHashMismatch),
        remove_outcome(executor.hashes(), right.order(executor.owner).spec_hash()) matches Ok(rest)
            && !rest.contains(right.order(executor.owner).spec_hash()) && rest.len()
            == executor.hashes().len() - 1,
{
    let hash = right.order(executor.owner).spec_hash();
    lemma_remove_keeps_distinct(executor.hashes(), position(executor.hashes(), hash));
}

/// Consumes and settles a revealed order, or refuses with no effect.
pub fn handler(
    executor: &mut ExecutorAuthority,
    accounts: &ConsumeAndExecute,
    args: &ConsumeAndExecuteArgs,
    unix_timestamp: i64,
) -> (result: Result<ConsumeAndExecuteOutcome, GhostBridgeError>)
    requires
        old(executor).wf(),
    ensures
        final(executor).wf(),
        match rejection(old(executor), args, unix_timestamp) {
            Some(error) => {
                &&& result matches Err(e)
                &&& e == error
                &&& *final(executor) == *old(executor)
            },
            None => {
                let hash = args.order(old(executor).owner).spec_hash();
                &&& result matches Ok(outcome)
                &&& final(executor).with_hash_removed(old(executor), hash)
                &&& final(executor).is_delegated == (old(executor).is_delegated
                    && args.keep_delegated)
                &&& outcome.action@ == planned_action(accounts, args)
                &&& outcome.action.returns_custody() == !args.keep_delegated
                &&& outcome.event.owner == old(executor).owner
                &&& outcome.event.order_id == args.order_id
                &&& outcome.event.order_hash@ == hash
                &&& outcome.event.market_index == args.market_index
                &&& outcome.event.execution_price == args.current_price
            },
        },
{
    let trigger_condition = match TriggerCondition::from_u8(args.trigger_condition) {
        Some(condition) => condition,
        None => {
            return Err(GhostBridgeError::InvalidTriggerCondition);
        },
    };
    let order_side = match OrderSide::from_u8(args.order_side) {
        Some(side) => side,
        None => {
            return Err(GhostBridgeError::InvalidOrderData);
        },
    };
    let owner = executor.owner;
    let order = CompressedGhostOrder {
        owner,
        order_id: args.order_id,
        market_index: args.market_index,
        trigger_price: args.trigger_price,
        trigger_condition,
        order_side,
        base_asset_amount: args.base_asset_amount,
        reduce_only: args.reduce_only,
        expiry: args.expiry,
        feed_id: args.feed_id,
        salt: args.salt,
    };
    assert(order == args.order(owner));
    let order_hash = order.compute_hash();
    if !executor.has_order_hash(&order_hash) {
        return Err(GhostBridgeError::OrderHashMismatch);
    }
    if order.is_expired(unix_timestamp) {
        return Err(GhostBridgeError::OrderExpired);
    }
    if !order.check_trigger(args.current_price) {
        return Err(GhostBridgeError::TriggerConditionNotMet);
    }
    let removed = executor.remove_order_hash(order_hash);
    assert(removed is Ok);
    if !args.keep_delegated {
        executor.is_delegated = false;
    }
    assert(executor.hashes() =~= old(executor).hashes().remove(
        position(old(executor).hashes(), order_hash@),
    ));
    assert(executor.executors() =~= old(executor).executors());

    let drift_accounts = build_drift_short_account_metas(
        accounts.drift_state,
        accounts.drift_user,
        accounts.drift_user_stats,
        accounts.drift_authority,
        accounts.perp_market,
        accounts.oracle,
    );
    let settlement = build_drift_call_handler(
        accounts.payer,
        drift_accounts,
        args.market_index,
        order_side,
        args.base_asset_amount,
        args.reduce_only,
    );
    let mut commited_accounts: Vec<Pubkey> = Vec::new();
    commited_accounts.push(accounts.executor_authority);
    let mut call_handlers: Vec<CallHandler> = Vec::new();
    call_handlers.push(settlement);
    let commit_type = CommitType::WithHandler { commited_accounts, call_handlers };
    proof {
        let expected = drift_call_handler(
            accounts.payer,
            drift_account_metas(
                accounts.drift_state,
                accounts.drift_user,
                accounts.drift_user_stats,
                accounts.drift_authority,
                accounts.perp_market,
                accounts.oracle,
            ),
            args.market_index,
            side_of(args.order_side),
            args.base_asset_amount,
            args.reduce_only,
        );
        assert(commit_type@ == (CommitTypeView::WithHandler {
            commited_accounts: seq![accounts.executor_authority],
            call_handlers: seq![expected],
        })) by {
            assert(commit_type->commited_accounts@ =~= seq![accounts.executor_authority]);
            assert(crate::actions::handlers_view(commit_type->call_handlers@) =~= seq![expected]);
        }
    }
    let action = if args.keep_delegated {
        MagicAction::Commit(commit_type)
    } else {
        MagicAction::CommitAndUndelegate(
            CommitAndUndelegate { commit_type, undelegate_type: UndelegateType::Standalone },
        )
    };
    Ok(
        ConsumeAndExecuteOutcome {
            event: GhostOrderExecuted {
                owner,
                order_id: args.order_id,
                order_hash,
                market_index: args.market_index,
                execution_price: args.current_price,
            },
            action,
        },
    )
}

} // verus!
