//! The commitment-reveal order and its lifecycle.
//!
//! ```text
//! Pending -> Active -> Triggered -> ReadyToExecute -> Executed
//!    |         |           |              |
//!    +-> Cancelled <-+     +-> Expired <--+
//! ```
//!
//! An active order whose own expiry has passed also ends in `Expired`.
//! `Executed` is reached from `ReadyToExecute` alone, whichever way the
//! armed order is settled.

use vstd::prelude::*;
use vstd::bytes::{spec_u16_to_le_bytes, spec_u64_to_le_bytes};
use crate::address::{found_view, program_address, seeds_view, try_find_program_address};
use crate::digest::{sha256_digest, sha256_hash};
use crate::encoding::{
    bool_byte, lemma_u16_le_injective, lemma_u64_le_injective, push_u16_le, push_u64_le, to_vec,
    Pubkey,
};

pub use crate::ghost_bridge::state::compressed_order::{OrderSide, TriggerCondition};

verus! {

/// How many ticks of the ledger counter an armed order stays executable.
pub const READY_WINDOW_SLOTS: i64 = 100;

/// Where a commitment-reveal order stands.
#[derive(Clone, Copy, PartialEq, Eq, Debug, Structural)]
pub enum OrderStatus {
    Pending,
    Active,
    Triggered,
    ReadyToExecute,
    Executed,
    Cancelled,
    Expired,
}

impl Default for OrderStatus {
    fn default() -> (status: Self)
        ensures
            status == OrderStatus::Pending,
    {
        OrderStatus::Pending
    }
}

impl OrderStatus {
    /// The wire byte of this status.
    pub open spec fn spec_to_u8(self) -> u8 {
        match self {
            OrderStatus::Pending => 0u8,
            OrderStatus::Active => 1u8,
            OrderStatus::Triggered => 2u8,
            OrderStatus::ReadyToExecute => 3u8,
            OrderStatus::Executed => 4u8,
            OrderStatus::Cancelled => 5u8,
            OrderStatus::Expired => 6u8,
        }
    }

    /// Whether no transition leaves this status.
    pub open spec fn is_terminal(self) -> bool {
        self == OrderStatus::Executed || self == OrderStatus::Cancelled || self
            == OrderStatus::Expired
    }

    /// Whether an order may move from `self` to `next` in one operation.
    pub open spec fn may_become(self, next: OrderStatus) -> bool {
        match (self, next) {
            (OrderStatus::Pending, OrderStatus::Active) => true,
            (OrderStatus::Pending, OrderStatus::Cancelled) => true,
            (OrderStatus::Active, OrderStatus::Triggered) => true,
            (OrderStatus::Active, OrderStatus::Cancelled) => true,
            (OrderStatus::Active, OrderStatus::Expired) => true,
            (OrderStatus::Triggered, OrderStatus::ReadyToExecute) => true,
            (OrderStatus::Triggered, OrderStatus::Expired) => true,
            (OrderStatus::ReadyToExecute, OrderStatus::Executed) => true,
            (OrderStatus::ReadyToExecute, OrderStatus::Expired) => true,
            _ => false,
        }
    }

    #[verifier::when_used_as_spec(spec_to_u8)]
    pub fn to_u8(self) -> (byte: u8)
        ensures
            byte == self.spec_to_u8(),
    {
        match self {
            OrderStatus::Pending => 0,
            OrderStatus::Active => 1,
            OrderStatus::Triggered => 2,
            OrderStatus::ReadyToExecute => 3,
            OrderStatus::Executed => 4,
            OrderStatus::Cancelled => 5,
            OrderStatus::Expired => 6,
        }
    }
}

/// A final status is never left, `ReadyToExecute` is entered from
/// `Triggered` alone, and `Executed` from `ReadyToExecute` alone.
pub proof fn lemma_lifecycle(from: OrderStatus, to: OrderStatus)
    requires
        from.may_become(to),
    ensures
        !from.is_terminal(),
        from != to,
        to != OrderStatus::Pending,
        to == OrderStatus::Active ==> from == OrderStatus::Pending,
        to == OrderStatus::Triggered ==> from == OrderStatus::Active,
        to == OrderStatus::ReadyToExecute ==> from == OrderStatus::Triggered,
        to == OrderStatus::Executed ==> from == OrderStatus::ReadyToExecute,
        to == OrderStatus::Cancelled ==> from == OrderStatus::Pending || from
            == OrderStatus::Active,
{
}

/// The trade parameters that a commitment binds.
#[derive(Clone, Copy, Debug, PartialEq, Eq)]
pub struct OrderParams {
    pub market_index: u16,
    pub order_side: OrderSide,
    pub base_asset_amount: u64,
    pub reduce_only: bool,
}

impl OrderParams {
    /// The serialized parameters: market index (2 bytes little-endian),
    /// side (1 byte), base size (8 bytes little-endian), reduce-only flag
    /// (1 byte).
    pub open spec fn spec_bytes(&self) -> Seq<u8> {
        spec_u16_to_le_bytes(self.market_index) + seq![self.order_side.spec_to_u8()]
            + spec_u64_to_le_bytes(self.base_asset_amount) + seq![bool_byte(self.reduce_only)]
    }

    /// What is hashed into the commitment: the serialized parameters, then
    /// the nonce little-endian.
    pub open spec fn commitment_preimage(&self, nonce: u64) -> Seq<u8> {
        self.spec_bytes() + spec_u64_to_le_bytes(nonce)
    }

    /// The commitment to these parameters under `nonce`.
    pub open spec fn spec_commitment(&self, nonce: u64) -> Seq<u8> {
        sha256_digest(self.commitment_preimage(nonce))
    }

    /// Serializes the parameters.
    pub fn to_bytes(&self) -> (bytes: Vec<u8>)
        ensures
            bytes@ == self.spec_bytes(),
    {
        let mut bytes: Vec<u8> = Vec::with_capacity(12);
        push_u16_le(&mut bytes, self.market_index);
        bytes.push(self.order_side.to_u8());
        push_u64_le(&mut bytes, self.base_asset_amount);
        bytes.push(if self.reduce_only { 1 } else { 0 });
        assert(bytes@ =~= self.spec_bytes());
        bytes
    }

    /// Computes the commitment to these parameters under `nonce`.
    pub fn commitment(&self, nonce: u64) -> (digest: [u8; 32])
        ensures
            digest@ == self.spec_commitment(nonce),
    {
        let mut hasher_input = self.to_bytes();
        push_u64_le(&mut hasher_input, nonce);
        sha256_hash(hasher_input.as_slice())
    }
}

/// The commitment's input has 20 bytes and lays its parts out at fixed
/// offsets.
pub proof fn lemma_commitment_preimage_layout(params: &OrderParams, nonce: u64)
    ensures
        params.commitment_preimage(nonce).len() == 20,
        params.commitment_preimage(nonce).subrange(0, 2) == spec_u16_to_le_bytes(
            params.market_index,
        ),
        params.commitment_preimage(nonce)[2] == params.order_side.spec_to_u8(),
        params.commitment_preimage(nonce).subrange(3, 11) == spec_u64_to_le_bytes(
            params.base_asset_amount,
        ),
        params.commitment_preimage(nonce)[11] == bool_byte(params.reduce_only),
        params.commitment_preimage(nonce).subrange(12, 20) == spec_u64_to_le_bytes(nonce),
{
    lemma_u16_le_injective(params.market_index, 0);
    lemma_u64_le_injective(params.base_asset_amount, 0);
    lemma_u64_le_injective(nonce, 0);
    let p = params.commitment_preimage(nonce);
    assert(p.len() == 20);
    assert(p.subrange(0, 2) =~= spec_u16_to_le_bytes(params.market_index));
    assert(p.subrange(3, 11) =~= spec_u64_to_le_bytes(params.base_asset_amount));
    assert(p.subrange(12, 20) =~= spec_u64_to_le_bytes(nonce));
}

/// Every parameter and the nonce take part in the commitment's input:
/// different parameters or a different nonce are hashed from different
/// bytes.
pub proof fn lemma_commitment_preimage_injective(
    a: &OrderParams,
    nonce_a: u64,
    b: &OrderParams,
    nonce_b: u64,
)
    requires
        a.commitment_preimage(nonce_a) == b.commitment_preimage(nonce_b),
    ensures
        *a == *b,
        nonce_a == nonce_b,
{
    lemma_commitment_preimage_layout(a, nonce_a);
    lemma_commitment_preimage_layout(b, nonce_b);
    lemma_u16_le_injective(a.market_index, b.market_index);
    lemma_u64_le_injective(a.base_asset_amount, b.base_asset_amount);
    lemma_u64_le_injective(nonce_a, nonce_b);
}

/// The stored record of a commitment-reveal order.
#[derive(Clone, Copy, Debug, PartialEq, Eq)]
pub struct GhostOrder {
    pub owner: Pubkey,
    pub order_id: u64,
    pub market_index: u16,
    pub trigger_price: i64,
    pub trigger_condition: TriggerCondition,
    pub order_side: OrderSide,
    pub base_asset_amount: u64,
    pub reduce_only: bool,
    pub status: OrderStatus,
    pub created_at: i64,
    pub triggered_at: i64,
    pub executed_at: i64,
    pub expiry: i64,
    pub feed_id: [u8; 32],
    pub crank_task_id: u64,
    pub execution_price: i64,
    pub bump: u8,
    pub params_commitment: [u8; 32],
    pub nonce: u64,
    pub ready_expires_at: i64,
    pub delegate_pda: Pubkey,
    pub delegate_bump: u8,
    pub drift_user: Pubkey,
}

impl GhostOrder {
    /// Seed prefix of the record's derived address: `ghost_order`.
    pub const SEED_PREFIX: [u8; 11] = [103, 104, 111, 115, 116, 95, 111, 114, 100, 101, 114];

    /// Seed prefix of the delegate sub-identity: `ghost_delegate`.
    pub const DELEGATE_SEED_PREFIX: [u8; 14] = [
        103, 104, 111, 115, 116, 95, 100, 101, 108, 101, 103, 97, 116, 101,
    ];

    /// Bytes the record occupies in storage, its 8-byte tag included.
    pub const LEN: usize = 8 + 32 + 8 + 2 + 8 + 1 + 1 + 8 + 1 + 1 + 8 + 8 + 8 + 8 + 32 + 8 + 8 + 1
        + 32 + 8 + 8 + 32 + 1 + 32;

    /// The stored trade parameters.
    pub open spec fn params(&self) -> OrderParams {
        OrderParams {
            market_index: self.market_index,
            order_side: self.order_side,
            base_asset_amount: self.base_asset_amount,
            reduce_only: self.reduce_only,
        }
    }

    pub open spec fn spec_is_active(&self) -> bool {
        self.status == OrderStatus::Active
    }

    pub open spec fn spec_is_ready_to_execute(&self) -> bool {
        self.status == OrderStatus::ReadyToExecute
    }

    /// Whether the order is void at `current_time`; an expiry of 0 never
    /// passes.
    pub open spec fn spec_is_expired(&self, current_time: i64) -> bool {
        self.expiry > 0 && current_time > self.expiry
    }

    /// Whether the execution window has passed at `current_slot`; a window
    /// end of 0 means no window was opened.
    pub open spec fn spec_is_ready_expired(&self, current_slot: i64) -> bool {
        self.ready_expires_at > 0 && current_slot > self.ready_expires_at
    }

    /// The seeds of the delegate sub-identity of `owner`.
    pub open spec fn delegate_seeds(owner: Pubkey) -> Seq<Seq<u8>> {
        seq![GhostOrder::DELEGATE_SEED_PREFIX@, owner@]
    }

    #[verifier::when_used_as_spec(spec_is_active)]
    pub fn is_active(&self) -> (active: bool)
        ensures
            active == self.spec_is_active(),
    {
        self.status == OrderStatus::Active
    }

    #[verifier::when_used_as_spec(spec_is_ready_to_execute)]
    pub fn is_ready_to_execute(&self) -> (ready: bool)
        ensures
            ready == self.spec_is_ready_to_execute(),
    {
        self.status == OrderStatus::ReadyToExecute
    }

    #[verifier::when_used_as_spec(spec_is_expired)]
    pub fn is_expired(&self, current_time: i64) -> (expired: bool)
        ensures
            expired == self.spec_is_expired(current_time),
    {
        self.expiry > 0 && current_time > self.expiry
    }

    #[verifier::when_used_as_spec(spec_is_ready_expired)]
    pub fn is_ready_expired(&self, current_slot: i64) -> (expired: bool)
        ensures
            expired == self.spec_is_ready_expired(current_slot),
    {
        self.ready_expires_at > 0 && current_slot > self.ready_expires_at
    }

    /// Whether `current_price` fires the order.
    pub fn check_trigger(&self, current_price: i64) -> (fired: bool)
        ensures
            fired == self.trigger_condition.holds(self.trigger_price as int, current_price as int),
    {
        match self.trigger_condition {
            TriggerCondition::Above => current_price >= self.trigger_price,
            TriggerCondition::Below => current_price <= self.trigger_price,
        }
    }

    /// The stored trade parameters.
    pub fn order_params(&self) -> (params: OrderParams)
        ensures
            params == self.params(),
    {
        OrderParams {
            market_index: self.market_index,
            order_side: self.order_side,
            base_asset_amount: self.base_asset_amount,
            reduce_only: self.reduce_only,
        }
    }

    /// The delegate sub-identity of `owner` under `program_id`, with its
    /// bump seed; `None` where the address search finds none.
    pub fn derive_delegate_pda(owner: &Pubkey, program_id: &Pubkey) -> (found: Option<(Pubkey, u8)>)
        ensures
            found_view(found) == program_address(GhostOrder::delegate_seeds(*owner), program_id@),
    {
        let mut seeds: Vec<Vec<u8>> = Vec::new();
        seeds.push(to_vec(GhostOrder::DELEGATE_SEED_PREFIX.as_slice()));
        seeds.push(to_vec(owner.as_slice()));
        assert(seeds_view(seeds@) =~= GhostOrder::delegate_seeds(*owner));
        try_find_program_address(&seeds, program_id)
    }
}

} // verus!
