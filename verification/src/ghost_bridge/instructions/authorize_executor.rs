//! The owner's control of the executor allow-list.

use vstd::prelude::*;
use crate::encoding::{bytes32_eq, Pubkey};
use crate::ghost_bridge::errors::GhostBridgeError;
use crate::ghost_bridge::state::executor_authority::{position, ExecutorAuthority};

verus! {

#[derive(Clone, Copy, Debug, PartialEq, Eq)]
pub struct AuthorizeExecutorArgs {
    pub executor: Pubkey,
    pub authorize: bool,
}

/// Identities of the accounts the operation touches.
#[derive(Clone, Copy, Debug, PartialEq, Eq)]
pub struct AuthorizeExecutor {
    pub owner: Pubkey,
    pub executor_authority: Pubkey,
}

/// The record of a change to the allow-list.
#[derive(Clone, Copy, Debug, PartialEq, Eq)]
pub struct ExecutorAuthorizationChanged {
    pub owner: Pubkey,
    pub executor: Pubkey,
    pub authorized: bool,
}

/// Why the change is refused, if it is.
pub open spec fn rejection(
    registry: &ExecutorAuthority,
    accounts: &AuthorizeExecutor,
    args: &AuthorizeExecutorArgs,
) -> Option<GhostBridgeError> {
    if registry.owner@ != accounts.owner@ {
        Some(GhostBridgeError::Unauthorized)
    } else if args.authorize && !registry.executors().contains(args.executor@)
        && registry.executor_count >= 4 {
        Some(GhostBridgeError::MaxExecutorsReached)
    } else {
        None
    }
}

/// The allow-list after an accepted change.
pub open spec fn executors_after(listed: Seq<Seq<u8>>, args: &AuthorizeExecutorArgs) -> Seq<
    Seq<u8>,
> {
    if listed.contains(args.executor@) {
        if args.authorize {
            listed
        } else {
            listed.remove(position(listed, args.executor@))
        }
    } else {
        if args.authorize {
            listed.push(args.executor@)
        } else {
            listed
        }
    }
}

/// Adds or removes an executor on the owner's behalf. Only the owner may
/// change the list; adding a listed executor and removing an unlisted one
/// both succeed and change nothing, whatever the size of the list. Adding
/// an executor that is not listed is refused when four are.
pub fn handler(
    registry: &mut ExecutorAuthority,
    accounts: &AuthorizeExecutor,
    args: &AuthorizeExecutorArgs,
) -> (result: Result<ExecutorAuthorizationChanged, GhostBridgeError>)
    requires
        old(registry).wf(),
    ensures
        final(registry).wf(),
        final(registry).same_but_executors(old(registry)),
        match rejection(old(registry), accounts, args) {
            Some(error) => {
                &&& result matches Err(e)
                &&& e == error
                &&& *final(registry) == *old(registry)
            },
            None => {
                &&& result matches Ok(event)
                &&& event.owner == accounts.owner
                &&& event.executor == args.executor
                &&& event.authorized == args.authorize
                &&& final(registry).executors() == executors_after(
                    old(registry).executors(),
                    args,
                )
                &&& final(registry).executors().contains(args.executor@) == args.authorize
                &&& old(registry).executors().contains(args.executor@) == args.authorize
                    ==> *final(registry) == *old(registry)
                &&& args.authorize && !old(registry).executors().contains(args.executor@)
                    ==> final(registry).with_executor_added(old(registry), args.executor)
                &&& !args.authorize && old(registry).executors().contains(args.executor@)
                    ==> final(registry).with_executor_removed(old(registry), args.executor@)
            },
        },
{
    if !bytes32_eq(&registry.owner, &accounts.owner) {
        return Err(GhostBridgeError::Unauthorized);
    }
    if args.authorize {
        match registry.add_authorized_executor(args.executor) {
            Ok(()) => {},
            Err(e) => {
                return Err(e);
            },
        }
        proof {
            if !old(registry).executors().contains(args.executor@) {
                let listed = old(registry).executors();
                assert(listed.push(args.executor@)[listed.len() as int] == args.executor@);
            }
        }
    } else {
        let removed = registry.remove_authorized_executor(args.executor);
    }
    Ok(
        ExecutorAuthorizationChanged {
            owner: accounts.owner,
            executor: args.executor,
            authorized: args.authorize,
        },
    )
}

} // verus!
