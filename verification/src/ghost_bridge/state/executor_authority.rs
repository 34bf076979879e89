//! The per-owner authority registry: a bounded, duplicate-free, ordered set
//! of pending order commitments and a bounded allow-list of executors.

use vstd::prelude::*;
use crate::encoding::{bytes32_eq, zero_key, Pubkey};
use crate::ghost_bridge::errors::GhostBridgeError;

verus! {

pub const MAX_ORDERS_PER_EXECUTOR: usize = 16;

pub const MAX_AUTHORIZED_EXECUTORS: usize = 4;

/// The registry record. The first `order_hash_count` slots of
/// `order_hashes` and the first `executor_count` slots of
/// `authorized_executors` are the live entries, in insertion order.
#[derive(Clone, Debug, PartialEq, Eq)]
pub struct ExecutorAuthority {
    pub owner: Pubkey,
    pub order_count: u64,
    pub is_delegated: bool,
    pub bump: u8,
    pub order_hashes: [[u8; 32]; 16],
    pub order_hash_count: u8,
    pub authorized_executors: [Pubkey; 4],
    pub executor_count: u8,
}

/// The position of `needle` in `s`, where `s` holds it.
pub open spec fn position(s: Seq<Seq<u8>>, needle: Seq<u8>) -> int {
    choose|k: int| 0 <= k < s.len() && s[k] == needle
}

/// Removing one entry of a duplicate-free sequence leaves it duplicate-free
/// and without the entry removed.
pub proof fn lemma_remove_keeps_distinct(s: Seq<Seq<u8>>, k: int)
    requires
        s.no_duplicates(),
        0 <= k < s.len(),
    ensures
        s.remove(k).no_duplicates(),
        !s.remove(k).contains(s[k]),
        s.remove(k).len() == s.len() - 1,
        forall|x: Seq<u8>| x != s[k] ==> (s.remove(k).contains(x) <==> s.contains(x)),
{
    let r = s.remove(k);
    assert forall|i: int, j: int| 0 <= i < r.len() && 0 <= j < r.len() && i != j implies r[i]
        != r[j] by {
        let si = if i < k { i } else { i + 1 };
        let sj = if j < k { j } else { j + 1 };
        assert(r[i] == s[si]);
        assert(r[j] == s[sj]);
    }
    assert forall|x: Seq<u8>| x != s[k] implies (r.contains(x) <==> s.contains(x)) by {
        if r.contains(x) {
            let i = choose|i: int| 0 <= i < r.len() && r[i] == x;
            let si = if i < k { i } else { i + 1 };
            assert(s[si] == x);
        }
        if s.contains(x) {
            let i = choose|i: int| 0 <= i < s.len() && s[i] == x;
            let ri = if i < k { i } else { i - 1 };
            assert(r[ri] == x);
        }
    }
    if r.contains(s[k]) {
        let i = choose|i: int| 0 <= i < r.len() && r[i] == s[k];
        let si = if i < k { i } else { i + 1 };
        assert(s[si] == s[k]);
    }
}

/// What registering `hash` among `hashes` comes to: the grown sequence,
/// or the refusal. A pending hash is refused as a duplicate whatever the
/// size; capacity refuses only a hash that is not pending.
pub open spec fn add_outcome(hashes: Seq<Seq<u8>>, hash: Seq<u8>) -> Result<
    Seq<Seq<u8>>,
    GhostBridgeError,
> {
    if hashes.contains(hash) {
        Err(GhostBridgeError::OrderHashExists)
    } else if hashes.len() >= 16 {
        Err(GhostBridgeError::MaxOrdersReached)
    } else {
        Ok(hashes.push(hash))
    }
}

/// What withdrawing `hash` from `hashes` comes to: the sequence with the
/// gap closed, or the refusal.
pub open spec fn remove_outcome(hashes: Seq<Seq<u8>>, hash: Seq<u8>) -> Result<
    Seq<Seq<u8>>,
    GhostBridgeError,
> {
    if hashes.contains(hash) {
        Ok(hashes.remove(position(hashes, hash)))
    } else {
        Err(GhostBridgeError::OrderHashNotFound)
    }
}

/// What allow-listing `executor` among `listed` comes to. A listed
/// executor is accepted and changes nothing, whatever the size; capacity
/// refuses only an executor that is not listed.
pub open spec fn authorize_outcome(listed: Seq<Seq<u8>>, executor: Seq<u8>) -> Result<
    Seq<Seq<u8>>,
    GhostBridgeError,
> {
    if listed.contains(executor) {
        Ok(listed)
    } else if listed.len() >= 4 {
        Err(GhostBridgeError::MaxExecutorsReached)
    } else {
        Ok(listed.push(executor))
    }
}

/// The allow-list once `executor` has been taken off it; an unlisted
/// executor changes nothing.
pub open spec fn revoke_outcome(listed: Seq<Seq<u8>>, executor: Seq<u8>) -> Seq<Seq<u8>> {
    if listed.contains(executor) {
        listed.remove(position(listed, executor))
    } else {
        listed
    }
}

/// A full registry refuses every commitment that is not pending for want
/// of room, and every pending one as a duplicate. Once any pending
/// commitment has been withdrawn, the survivors keep their order, and a
/// commitment that is not pending is accepted: it comes last, at position
/// 15, the registry is full again and still free of duplicates.
pub proof fn lemma_remove_makes_room(hashes: Seq<Seq<u8>>, gone: Seq<u8>, fresh: Seq<u8>)
    requires
        hashes.no_duplicates(),
        hashes.len() == 16,
        hashes.contains(gone),
        !hashes.contains(fresh),
    ensures
        add_outcome(hashes, fresh) == Err::<Seq<Seq<u8>>, GhostBridgeError>(
            GhostBridgeError::MaxOrdersReached,
        ),
        add_outcome(hashes, gone) == Err::<Seq<Seq<u8>>, GhostBridgeError>(
            GhostBridgeError::OrderHashExists,
        ),
        ({
            let k = position(hashes, gone);
            &&& 0 <= k < 16
            &&& hashes[k] == gone
            &&& remove_outcome(hashes, gone) matches Ok(rest)
            &&& rest.len() == 15
            &&& rest.no_duplicates()
            &&& !rest.contains(gone)
            &&& forall|i: int| 0 <= i < k ==> rest[i] == hashes[i]
            &&& forall|i: int| k <= i < 15 ==> rest[i] == hashes[i + 1]
            &&& add_outcome(rest, fresh) matches Ok(full)
            &&& full == rest.push(fresh)
            &&& full.len() == 16
            &&& full[15] == fresh
            &&& full.contains(fresh)
            &&& full.no_duplicates()
            &&& forall|i: int| 0 <= i < 15 ==> full[i] == rest[i]
        }),
{
    let k = position(hashes, gone);
    lemma_remove_keeps_distinct(hashes, k);
    let rest = hashes.remove(k);
    if rest.contains(fresh) {
        assert(hashes.contains(fresh));
    }
    lemma_push_keeps_distinct(rest, fresh);
    let full = rest.push(fresh);
    assert(full[15] == fresh);
}

/// Appending an entry that a duplicate-free sequence does not hold leaves
/// it duplicate-free.
pub proof fn lemma_push_keeps_distinct(s: Seq<Seq<u8>>, fresh: Seq<u8>)
    requires
        s.no_duplicates(),
        !s.contains(fresh),
    ensures
        s.push(fresh).no_duplicates(),
        s.push(fresh).contains(fresh),
        forall|x: Seq<u8>| s.contains(x) ==> s.push(fresh).contains(x),
{
    let grown = s.push(fresh);
    assert(grown[s.len() as int] == fresh);
    assert forall|i: int, j: int| 0 <= i < grown.len() && 0 <= j < grown.len() && i != j implies grown[i]
        != grown[j] by {
        if i == s.len() {
            assert(s[j] == grown[j]);
        } else if j == s.len() {
            assert(s[i] == grown[i]);
        }
    }
    assert forall|x: Seq<u8>| s.contains(x) implies grown.contains(x) by {
        let i = choose|i: int| 0 <= i < s.len() && s[i] == x;
        assert(grown[i] == x);
    }
}

/// A pending commitment is refused as a duplicate at any size, and below
/// capacity a commitment that was accepted can be withdrawn again, which
/// gives back the sequence there was before.
pub proof fn lemma_add_then_remove(hashes: Seq<Seq<u8>>, hash: Seq<u8>)
    requires
        hashes.no_duplicates(),
        hashes.len() <= 16,
    ensures
        hashes.contains(hash) ==> add_outcome(hashes, hash) == Err::<
            Seq<Seq<u8>>,
            GhostBridgeError,
        >(GhostBridgeError::OrderHashExists),
        !hashes.contains(hash) && hashes.len() < 16 ==> add_outcome(hashes, hash) == Ok::<
            Seq<Seq<u8>>,
            GhostBridgeError,
        >(hashes.push(hash)) && remove_outcome(hashes.push(hash), hash) == Ok::<
            Seq<Seq<u8>>,
            GhostBridgeError,
        >(hashes),
{
    if !hashes.contains(hash) {
        let grown = hashes.push(hash);
        assert(grown[hashes.len() as int] == hash);
        let k = position(grown, hash);
        assert(0 <= k < grown.len() && grown[k] == hash);
        if k < hashes.len() {
            assert(hashes[k] == hash);
        }
        assert(k == hashes.len());
        assert(grown.remove(k) =~= hashes);
    }
}

/// Allow-listing is idempotent at every size: a listed executor is
/// accepted again and nothing changes, also when four are listed. Only a
/// fifth executor that is not listed is refused for want of room. A
/// revoked executor is no longer listed.
pub proof fn lemma_allow_list(listed: Seq<Seq<u8>>, executor: Seq<u8>)
    requires
        listed.no_duplicates(),
        listed.len() <= 4,
    ensures
        listed.contains(executor) ==> authorize_outcome(listed, executor) == Ok::<
            Seq<Seq<u8>>,
            GhostBridgeError,
        >(listed),
        !listed.contains(executor) && listed.len() == 4 ==> authorize_outcome(listed, executor)
            == Err::<Seq<Seq<u8>>, GhostBridgeError>(GhostBridgeError::MaxExecutorsReached),
        !listed.contains(executor) && listed.len() < 4 ==> {
            &&& authorize_outcome(listed, executor) matches Ok(once)
            &&& once == listed.push(executor)
            &&& once.len() == listed.len() + 1
            &&& once.contains(executor)
            &&& once.no_duplicates()
            &&& authorize_outcome(once, executor) == Ok::<Seq<Seq<u8>>, GhostBridgeError>(once)
        },
        !revoke_outcome(listed, executor).contains(executor),
        revoke_outcome(listed, executor).no_duplicates(),
{
    if listed.contains(executor) {
        lemma_remove_keeps_distinct(listed, position(listed, executor));
    } else {
        lemma_push_keeps_distinct(listed, executor);
    }
}

impl ExecutorAuthority {
    /// Seed prefix of the registry's derived address: `executor`.
    pub const SEED_PREFIX: [u8; 8] = [101, 120, 101, 99, 117, 116, 111, 114];

    /// Bytes the record occupies in storage, its 8-byte tag included.
    pub const LEN: usize = 8 + 32 + 8 + 1 + 1 + (32 * MAX_ORDERS_PER_EXECUTOR) + 1 + (32
        * MAX_AUTHORIZED_EXECUTORS) + 1;

    /// The pending order commitments, oldest first.
    pub open spec fn hashes(&self) -> Seq<Seq<u8>> {
        Seq::new(self.order_hash_count as nat, |i: int| self.order_hashes@[i]@)
    }

    /// The allow-listed executors, oldest first.
    pub open spec fn executors(&self) -> Seq<Seq<u8>> {
        Seq::new(self.executor_count as nat, |i: int| self.authorized_executors@[i]@)
    }

    /// The registry's invariant: both collections within capacity and free
    /// of duplicates.
    pub open spec fn wf(&self) -> bool {
        &&& self.order_hash_count <= 16
        &&& self.executor_count <= 4
        &&& self.hashes().no_duplicates()
        &&& self.executors().no_duplicates()
    }

    /// Whether everything but the order commitments and their counters is
    /// the same in both records.
    pub open spec fn same_but_hashes(&self, other: &Self) -> bool {
        &&& self.owner == other.owner
        &&& self.is_delegated == other.is_delegated
        &&& self.bump == other.bump
        &&& self.authorized_executors == other.authorized_executors
        &&& self.executor_count == other.executor_count
    }

    /// What registering `hash` does to a record, slot by slot: the hash
    /// takes the first free slot, both counters grow by one, and nothing
    /// else changes.
    pub open spec fn with_hash_added(&self, before: &Self, hash: [u8; 32]) -> bool {
        &&& before.order_hash_count < 16
        &&& self.hashes() == before.hashes().push(hash@)
        &&& self.order_hash_count == before.order_hash_count + 1
        &&& self.order_count == before.order_count + 1
        &&& self.order_hashes@[before.order_hash_count as int]@ == hash@
        &&& forall|j: int|
            0 <= j < 16 && j != before.order_hash_count ==> self.order_hashes@[j]
                == before.order_hashes@[j]
        &&& self.same_but_hashes(before)
    }

    /// What withdrawing the pending `hash` does to a record, slot by slot:
    /// the slots before it stay, those after it move down by one, the slot
    /// that falls vacant is blanked, the slots past the live region stay,
    /// the count drops by one, and nothing else changes but, where the
    /// operation says so, the custody flag.
    pub open spec fn with_hash_removed(&self, before: &Self, hash: Seq<u8>) -> bool {
        let k = position(before.hashes(), hash);
        &&& before.hashes().contains(hash)
        &&& self.hashes() == before.hashes().remove(k)
        &&& !self.hashes().contains(hash)
        &&& self.order_hash_count == before.order_hash_count - 1
        &&& self.order_count == before.order_count
        &&& forall|j: int| 0 <= j < k ==> self.order_hashes@[j] == before.order_hashes@[j]
        &&& forall|j: int|
            k <= j < before.order_hash_count - 1 ==> self.order_hashes@[j]
                == before.order_hashes@[j + 1]
        &&& self.order_hashes@[before.order_hash_count - 1]@ == zero_key()
        &&& forall|j: int|
            before.order_hash_count <= j < 16 ==> self.order_hashes@[j]
                == before.order_hashes@[j]
        &&& self.owner == before.owner
        &&& self.bump == before.bump
        &&& self.authorized_executors == before.authorized_executors
        &&& self.executor_count == before.executor_count
    }

    /// What allow-listing an executor that was not listed does to a
    /// record, slot by slot: the executor takes the first free slot, the
    /// count grows by one, and nothing else changes.
    pub open spec fn with_executor_added(&self, before: &Self, executor: Pubkey) -> bool {
        &&& before.executor_count < 4
        &&& self.executors() == before.executors().push(executor@)
        &&& self.executor_count == before.executor_count + 1
        &&& self.authorized_executors@[before.executor_count as int]@ == executor@
        &&& forall|j: int|
            0 <= j < 4 && j != before.executor_count ==> self.authorized_executors@[j]
                == before.authorized_executors@[j]
        &&& self.same_but_executors(before)
    }

    /// What revoking a listed executor does to a record, slot by slot: the
    /// slots before it stay, those after it move down by one, the slot that
    /// falls vacant is blanked, the slots past the live region stay, the
    /// count drops by one, and nothing else changes.
    pub open spec fn with_executor_removed(&self, before: &Self, executor: Seq<u8>) -> bool {
        let k = position(before.executors(), executor);
        &&& before.executors().contains(executor)
        &&& self.executors() == before.executors().remove(k)
        &&& !self.executors().contains(executor)
        &&& self.executor_count == before.executor_count - 1
        &&& forall|j: int|
            0 <= j < k ==> self.authorized_executors@[j] == before.authorized_executors@[j]
        &&& forall|j: int|
            k <= j < before.executor_count - 1 ==> self.authorized_executors@[j]
                == before.authorized_executors@[j + 1]
        &&& self.authorized_executors@[before.executor_count - 1]@ == zero_key()
        &&& forall|j: int|
            before.executor_count <= j < 4 ==> self.authorized_executors@[j]
                == before.authorized_executors@[j]
        &&& self.same_but_executors(before)
    }

    /// Whether everything but the allow-list is the same in both records.
    pub open spec fn same_but_executors(&self, other: &Self) -> bool {
        &&& self.owner == other.owner
        &&& self.order_count == other.order_count
        &&& self.is_delegated == other.is_delegated
        &&& self.bump == other.bump
        &&& self.order_hashes == other.order_hashes
        &&& self.order_hash_count == other.order_hash_count
    }

    /// An empty registry for `owner`.
    pub fn new(owner: Pubkey, bump: u8) -> (registry: Self)
        ensures
            registry.wf(),
            registry.owner == owner,
            registry.bump == bump,
            registry.order_count == 0,
            !registry.is_delegated,
            registry.hashes() == Seq::<Seq<u8>>::empty(),
            registry.executors() == Seq::<Seq<u8>>::empty(),
            forall|i: int| 0 <= i < 16 ==> (#[trigger] registry.order_hashes@[i])@ == zero_key(),
            forall|i: int| 0 <= i < 4 ==> (#[trigger] registry.authorized_executors@[i])@ == zero_key(),
    {
        let registry = ExecutorAuthority {
            owner,
            order_count: 0,
            is_delegated: false,
            bump,
            order_hashes: [[0u8; 32]; 16],
            order_hash_count: 0,
            authorized_executors: [[0u8; 32]; 4],
            executor_count: 0,
        };
        assert(registry.hashes() =~= Seq::<Seq<u8>>::empty());
        assert(registry.executors() =~= Seq::<Seq<u8>>::empty());
        assert forall|i: int| 0 <= i < 16 implies (#[trigger] registry.order_hashes@[i])@
            == zero_key() by {
            assert(registry.order_hashes@[i]@ =~= zero_key());
        }
        assert forall|i: int| 0 <= i < 4 implies (#[trigger] registry.authorized_executors@[i])@
            == zero_key() by {
            assert(registry.authorized_executors@[i]@ =~= zero_key());
        }
        registry
    }

    /// Whether the first `count` of `slots` are pairwise different.
    fn slots_distinct<const N: usize>(slots: &[[u8; 32]; N], count: usize) -> (distinct: bool)
        requires
            count <= N,
        ensures
            distinct == Seq::new(count as nat, |i: int| slots@[i]@).no_duplicates(),
    {
        let ghost live = Seq::new(count as nat, |i: int| slots@[i]@);
        let mut i: usize = 0;
        while i < count
            invariant
                i <= count <= N,
                live == Seq::new(count as nat, |i: int| slots@[i]@),
                forall|a: int, b: int| 0 <= a < i && 0 <= b < count && a != b ==> live[a] != live[b],
            decreases count - i,
        {
            let mut j: usize = i + 1;
            while j < count
                invariant
                    i < j <= count <= N,
                    live == Seq::new(count as nat, |i: int| slots@[i]@),
                    forall|b: int| i < b < j ==> live[i as int] != live[b],
                decreases count - j,
            {
                if bytes32_eq(&slots[i], &slots[j]) {
                    assert(live[i as int] == live[j as int]);
                    return false;
                }
                j = j + 1;
            }
            i = i + 1;
        }
        true
    }

    /// Checks the registry's invariant at run time, for records that come
    /// from storage.
    pub fn is_well_formed(&self) -> (ok: bool)
        ensures
            ok == self.wf(),
    {
        if self.order_hash_count > 16 || self.executor_count > 4 {
            return false;
        }
        Self::slots_distinct(&self.order_hashes, self.order_hash_count as usize)
            && Self::slots_distinct(&self.authorized_executors, self.executor_count as usize)
    }

    /// Index of the live slot holding `hash`, if any.
    fn find_order_hash(&self, hash: &[u8; 32]) -> (found: Option<usize>)
        requires
            self.order_hash_count <= 16,
        ensures
            match found {
                Some(k) => k < self.order_hash_count && self.hashes()[k as int] == hash@,
                None => !self.hashes().contains(hash@),
            },
    {
        let count = self.order_hash_count as usize;
        let mut i: usize = 0;
        while i < count
            invariant
                i <= count,
                count == self.order_hash_count,
                count <= 16,
                forall|j: int| 0 <= j < i ==> self.hashes()[j] != hash@,
            decreases count - i,
        {
            if bytes32_eq(&self.order_hashes[i], hash) {
                return Some(i);
            }
            i = i + 1;
        }
        None
    }

    /// Index of the live slot holding `executor`, if any.
    fn find_executor(&self, executor: &Pubkey) -> (found: Option<usize>)
        requires
            self.executor_count <= 4,
        ensures
            match found {
                Some(k) => k < self.executor_count && self.executors()[k as int] == executor@,
                None => !self.executors().contains(executor@),
            },
    {
        let count = self.executor_count as usize;
        let mut i: usize = 0;
        while i < count
            invariant
                i <= count,
                count == self.executor_count,
                count <= 4,
                forall|j: int| 0 <= j < i ==> self.executors()[j] != executor@,
            decreases count - i,
        {
            if bytes32_eq(&self.authorized_executors[i], executor) {
                return Some(i);
            }
            i = i + 1;
        }
        None
    }

    /// Registers a commitment. A pending commitment is refused as a
    /// duplicate; one that is not pending is refused when 16 are.
    pub fn add_order_hash(&mut self, hash: [u8; 32]) -> (result: Result<(), GhostBridgeError>)
        requires
            old(self).wf(),
            old(self).order_count < u64::MAX,
        ensures
            final(self).wf(),
            match add_outcome(old(self).hashes(), hash@) {
                Ok(grown) => result is Ok && final(self).hashes() == grown,
                Err(error) => result == Err::<(), GhostBridgeError>(error),
            },
            old(self).hashes().contains(hash@) ==> result == Err::<(), GhostBridgeError>(
                GhostBridgeError::OrderHashExists,
            ),
            !old(self).hashes().contains(hash@) && old(self).order_hash_count >= 16 ==> result
                == Err::<(), GhostBridgeError>(GhostBridgeError::MaxOrdersReached),
            !old(self).hashes().contains(hash@) && old(self).order_hash_count < 16
                ==> result is Ok,
            result is Err ==> *final(self) == *old(self),
            result is Ok ==> final(self).with_hash_added(old(self), hash),
    {
        match self.find_order_hash(&hash) {
            Some(_) => {
                return Err(GhostBridgeError::OrderHashExists);
            },
            None => {},
        }
        if self.order_hash_count as usize >= MAX_ORDERS_PER_EXECUTOR {
            return Err(GhostBridgeError::MaxOrdersReached);
        }
        let count = self.order_hash_count as usize;
        self.order_hashes[count] = hash;
        self.order_hash_count = self.order_hash_count + 1;
        self.order_count = self.order_count + 1;
        assert(self.hashes() =~= old(self).hashes().push(hash@));
        assert(self.executors() =~= old(self).executors());
        Ok(())
    }

    /// Withdraws a commitment, closing the gap and blanking the slot that
    /// falls vacant.
    pub fn remove_order_hash(&mut self, hash: [u8; 32]) -> (result: Result<(), GhostBridgeError>)
        requires
            old(self).wf(),
        ensures
            final(self).wf(),
            match remove_outcome(old(self).hashes(), hash@) {
                Ok(rest) => result is Ok && final(self).hashes() == rest,
                Err(error) => result == Err::<(), GhostBridgeError>(error),
            },
            !old(self).hashes().contains(hash@) ==> result == Err::<(), GhostBridgeError>(
                GhostBridgeError::OrderHashNotFound,
            ),
            old(self).hashes().contains(hash@) ==> result is Ok,
            result is Err ==> *final(self) == *old(self),
            result is Ok ==> {
                &&& final(self).with_hash_removed(old(self), hash@)
                &&& final(self).is_delegated == old(self).is_delegated
            },
    {
        let idx = match self.find_order_hash(&hash) {
            Some(k) => k,
            None => {
                return Err(GhostBridgeError::OrderHashNotFound);
            },
        };
        let count = self.order_hash_count as usize;
        let ghost before = old(self).hashes();
        proof {
            assert(before[idx as int] == hash@);
            let p = position(before, hash@);
            assert(0 <= p < before.len() && before[p] == hash@);
            assert(p == idx);
            lemma_remove_keeps_distinct(before, idx as int);
        }
        let mut i: usize = idx;
        while i < count - 1
            invariant
                idx <= i <= count - 1,
                count == old(self).order_hash_count,
                count <= 16,
                self.order_hash_count == count,
                self.order_count == old(self).order_count,
                self.same_but_hashes(old(self)),
                forall|j: int| 0 <= j < idx ==> self.order_hashes@[j] == old(self).order_hashes@[j],
                forall|j: int|
                    idx <= j < i ==> self.order_hashes@[j] == old(self).order_hashes@[j + 1],
                forall|j: int| i <= j < 16 ==> self.order_hashes@[j] == old(self).order_hashes@[j],
            decreases count - 1 - i,
        {
            let next = self.order_hashes[i + 1];
            self.order_hashes[i] = next;
            i = i + 1;
        }
        self.order_hashes[count - 1] = [0u8; 32];
        self.order_hash_count = self.order_hash_count - 1;
        proof {
            assert(self.order_hashes@[count - 1]@ =~= zero_key());
            assert(self.hashes() =~= before.remove(idx as int));
            assert(self.executors() =~= old(self).executors());
        }
        Ok(())
    }

    /// Whether `hash` is a pending commitment.
    pub fn has_order_hash(&self, hash: &[u8; 32]) -> (present: bool)
        requires
            self.order_hash_count <= 16,
        ensures
            present == self.hashes().contains(hash@),
    {
        self.find_order_hash(hash).is_some()
    }

    /// Whether no commitment is pending.
    pub fn is_empty(&self) -> (empty: bool)
        ensures
            empty == (self.order_hash_count == 0),
            self.order_hash_count <= 16 ==> empty == (self.hashes().len() == 0),
    {
        self.order_hash_count == 0
    }

    /// Whether `executor` is on the allow-list.
    pub fn is_authorized_executor(&self, executor: &Pubkey) -> (authorized: bool)
        requires
            self.executor_count <= 4,
        ensures
            authorized == self.executors().contains(executor@),
    {
        self.find_executor(executor).is_some()
    }

    /// Puts `executor` on the allow-list. Re-adding a listed executor
    /// changes nothing and succeeds at any size; an executor that is not
    /// listed is refused when four are.
    pub fn add_authorized_executor(&mut self, executor: Pubkey) -> (result: Result<
        (),
        GhostBridgeError,
    >)
        requires
            old(self).wf(),
        ensures
            final(self).wf(),
            final(self).same_but_executors(old(self)),
            match authorize_outcome(old(self).executors(), executor@) {
                Ok(listed) => result is Ok && final(self).executors() == listed,
                Err(error) => result == Err::<(), GhostBridgeError>(error),
            },
            !old(self).executors().contains(executor@) && old(self).executor_count >= 4
                ==> result == Err::<(), GhostBridgeError>(GhostBridgeError::MaxExecutorsReached),
            old(self).executors().contains(executor@) || old(self).executor_count < 4
                ==> result is Ok,
            result is Err ==> *final(self) == *old(self),
            result is Ok && old(self).executors().contains(executor@) ==> *final(self) == *old(
                self,
            ),
            result is Ok && !old(self).executors().contains(executor@)
                ==> final(self).with_executor_added(old(self), executor),
    {
        match self.find_executor(&executor) {
            Some(_) => {
                return Ok(());
            },
            None => {},
        }
        if self.executor_count as usize >= MAX_AUTHORIZED_EXECUTORS {
            return Err(GhostBridgeError::MaxExecutorsReached);
        }
        let count = self.executor_count as usize;
        self.authorized_executors[count] = executor;
        self.executor_count = self.executor_count + 1;
        assert(self.executors() =~= old(self).executors().push(executor@));
        assert(self.hashes() =~= old(self).hashes());
        Ok(())
    }

    /// Takes `executor` off the allow-list, closing the gap and blanking
    /// the slot that falls vacant. Removing an unlisted executor changes
    /// nothing and succeeds.
    pub fn remove_authorized_executor(&mut self, executor: Pubkey) -> (result: Result<
        (),
        GhostBridgeError,
    >)
        requires
            old(self).wf(),
        ensures
            result is Ok,
            final(self).wf(),
            final(self).same_but_executors(old(self)),
            final(self).executors() == revoke_outcome(old(self).executors(), executor@),
            !final(self).executors().contains(executor@),
            !old(self).executors().contains(executor@) ==> *final(self) == *old(self),
            old(self).executors().contains(executor@) ==> final(self).with_executor_removed(
                old(self),
                executor@,
            ),
    {
        let idx = match self.find_executor(&executor) {
            Some(k) => k,
            None => {
                return Ok(());
            },
        };
        let count = self.executor_count as usize;
        let ghost before = old(self).executors();
        proof {
            assert(before[idx as int] == executor@);
            let p = position(before, executor@);
            assert(0 <= p < before.len() && before[p] == executor@);
            assert(p == idx);
            lemma_remove_keeps_distinct(before, idx as int);
        }
        let mut i: usize = idx;
        while i < count - 1
            invariant
                idx <= i <= count - 1,
                count == old(self).executor_count,
                count <= 4,
                self.executor_count == count,
                self.same_but_executors(old(self)),
                forall|j: int|
                    0 <= j < idx ==> self.authorized_executors@[j] == old(
                        self,
                    ).authorized_executors@[j],
                forall|j: int|
                    idx <= j < i ==> self.authorized_executors@[j] == old(
                        self,
                    ).authorized_executors@[j + 1],
                forall|j: int|
                    i <= j < 4 ==> self.authorized_executors@[j] == old(
                        self,
                    ).authorized_executors@[j],
            decreases count - 1 - i,
        {
            let next = self.authorized_executors[i + 1];
            self.authorized_executors[i] = next;
            i = i + 1;
        }
        self.authorized_executors[count - 1] = [0u8; 32];
        self.executor_count = self.executor_count - 1;
        proof {
            assert(self.authorized_executors@[count - 1]@ =~= zero_key());
            assert(self.executors() =~= before.remove(idx as int));
            assert(self.hashes() =~= old(self).hashes());
        }
        Ok(())
    }
}

} // verus!
