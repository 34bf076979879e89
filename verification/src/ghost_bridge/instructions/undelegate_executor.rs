//! Returning custody of the registry to the general domain.

use vstd::prelude::*;
use crate::actions::{
    CommitAndUndelegate, CommitType, CommitTypeView, MagicAction, MagicActionView,
    UndelegateType, UndelegateTypeView,
};
use crate::encoding::Pubkey;
use crate::ghost_bridge::errors::GhostBridgeError;
use crate::ghost_bridge::state::executor_authority::ExecutorAuthority;

verus! {

/// Identities of the accounts the operation touches.
#[derive(Clone, Copy, Debug, PartialEq, Eq)]
pub struct UndelegateExecutor {
    pub payer: Pubkey,
    pub executor_authority: Pubkey,
    pub magic_context: Pubkey,
    pub magic_program: Pubkey,
}

/// The hand-back: snapshot the registry alone and return custody.
pub open spec fn planned_action(accounts: &UndelegateExecutor) -> MagicActionView {
    MagicActionView::CommitAndUndelegate {
        commit_type: CommitTypeView::Standalone(seq![accounts.executor_authority]),
        undelegate_type: UndelegateTypeView::Standalone,
    }
}

/// Marks the registry as no longer delegated and plans the hand-back; a
/// registry that is not delegated is refused and left as it is.
pub fn handler(executor: &mut ExecutorAuthority, accounts: &UndelegateExecutor) -> (result: Result<
    MagicAction,
    GhostBridgeError,
>)
    ensures
        !old(executor).is_delegated ==> {
            &&& result matches Err(e)
            &&& e == GhostBridgeError::ExecutorNotDelegated
            &&& *final(executor) == *old(executor)
        },
        old(executor).is_delegated ==> {
            &&& result matches Ok(action)
            &&& action@ == planned_action(accounts)
            &&& action.returns_custody()
            &&& *final(executor) == (ExecutorAuthority { is_delegated: false, ..*old(executor) })
        },
{
    if !executor.is_delegated {
        return Err(GhostBridgeError::ExecutorNotDelegated);
    }
    executor.is_delegated = false;
    let mut commited: Vec<Pubkey> = Vec::new();
    commited.push(accounts.executor_authority);
    assert(commited@ =~= seq![accounts.executor_authority]);
    Ok(
        MagicAction::CommitAndUndelegate(
            CommitAndUndelegate {
                commit_type: CommitType::Standalone(commited),
                undelegate_type: UndelegateType::Standalone,
            },
        ),
    )
}

} // verus!
