//! Moving custody of the registry to the low-latency domain.

use vstd::prelude::*;
use crate::encoding::{bytes32_eq, to_vec, Pubkey};
use crate::ghost_bridge::errors::GhostBridgeError;
use crate::ghost_bridge::state::executor_authority::ExecutorAuthority;

verus! {

/// Identities of the accounts the operation touches.
#[derive(Clone, Copy, Debug, PartialEq, Eq)]
pub struct DelegateExecutor {
    pub owner: Pubkey,
    pub executor_authority: Pubkey,
}

/// Identities of the accounts the confirmation touches.
#[derive(Clone, Copy, Debug, PartialEq, Eq)]
pub struct PostDelegateExecutor {
    pub owner: Pubkey,
    pub executor_authority: Pubkey,
}

/// The seeds of the registry's derived address: the prefix, then the owner.
pub open spec fn executor_seeds(owner: Pubkey) -> Seq<Seq<u8>> {
    seq![ExecutorAuthority::SEED_PREFIX@, owner@]
}

/// Why delegation is refused, if it is.
pub open spec fn rejection(executor: &ExecutorAuthority, accounts: &DelegateExecutor) -> Option<
    GhostBridgeError,
> {
    if executor.owner@ != accounts.owner@ {
        Some(GhostBridgeError::Unauthorized)
    } else if executor.is_delegated {
        Some(GhostBridgeError::ExecutorDelegated)
    } else {
        None
    }
}

/// Checks that the owner may delegate the registry and hands back the
/// seeds under which the host delegates it.
pub fn handler(executor: &ExecutorAuthority, accounts: &DelegateExecutor) -> (result: Result<
    Vec<Vec<u8>>,
    GhostBridgeError,
>)
    ensures
        match rejection(executor, accounts) {
            Some(error) => {
                &&& result matches Err(e)
                &&& e == error
            },
            None => {
                &&& result matches Ok(seeds)
                &&& crate::address::seeds_view(seeds@) == executor_seeds(accounts.owner)
            },
        },
{
    if !bytes32_eq(&executor.owner, &accounts.owner) {
        return Err(GhostBridgeError::Unauthorized);
    }
    if executor.is_delegated {
        return Err(GhostBridgeError::ExecutorDelegated);
    }
    let mut seeds: Vec<Vec<u8>> = Vec::new();
    seeds.push(to_vec(ExecutorAuthority::SEED_PREFIX.as_slice()));
    seeds.push(to_vec(accounts.owner.as_slice()));
    assert(crate::address::seeds_view(seeds@) =~= executor_seeds(accounts.owner));
    Ok(seeds)
}

/// Records that custody now lies in the low-latency domain.
pub fn post_delegate_handler(
    executor: &mut ExecutorAuthority,
    accounts: &PostDelegateExecutor,
) -> (result: Result<(), GhostBridgeError>)
    ensures
        old(executor).owner@ != accounts.owner@ ==> {
            &&& result == Err::<(), GhostBridgeError>(GhostBridgeError::Unauthorized)
            &&& *final(executor) == *old(executor)
        },
        old(executor).owner@ == accounts.owner@ ==> {
            &&& result is Ok
            &&& *final(executor) == (ExecutorAuthority { is_delegated: true, ..*old(executor) })
        },
{
    if !bytes32_eq(&executor.owner, &accounts.owner) {
        return Err(GhostBridgeError::Unauthorized);
    }
    executor.is_delegated = true;
    Ok(())
}

} // verus!
