//! Creation of an owner's authority registry.

use vstd::prelude::*;
use crate::encoding::{zero_key, Pubkey};
use crate::ghost_bridge::state::executor_authority::ExecutorAuthority;

verus! {

/// Identities of the accounts the operation touches.
#[derive(Clone, Copy, Debug, PartialEq, Eq)]
pub struct InitExecutor {
    pub owner: Pubkey,
    pub executor_authority: Pubkey,
}

/// The registry a new owner starts with: nothing pending, nobody
/// allow-listed, custody in the general domain.
pub fn handler(accounts: &InitExecutor, bump: u8) -> (registry: ExecutorAuthority)
    ensures
        registry.wf(),
        registry.owner == accounts.owner,
        registry.bump == bump,
        registry.order_count == 0,
        !registry.is_delegated,
        registry.hashes() == Seq::<Seq<u8>>::empty(),
        registry.executors() == Seq::<Seq<u8>>::empty(),
        forall|i: int| 0 <= i < 16 ==> (#[trigger] registry.order_hashes@[i])@ == zero_key(),
        forall|i: int| 0 <= i < 4 ==> (#[trigger] registry.authorized_executors@[i])@ == zero_key(),
{
    ExecutorAuthority::new(accounts.owner, bump)
}

} // verus!
