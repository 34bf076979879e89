//! The ciphertext-carrying order: an opaque encrypted blob stored beside
//! the commitment it belongs to, with a small lifecycle.

use vstd::prelude::*;
use vstd::slice::slice_subrange;
use crate::encoding::{zero_key, Pubkey};

verus! {

pub const MAX_ENCRYPTED_DATA_LEN: usize = 256;

/// Where a ciphertext order stands. `Executed` and `Cancelled` are final.
#[derive(Clone, Copy, PartialEq, Eq, Debug, Structural)]
pub enum EncryptedOrderStatus {
    Active,
    Triggered,
    Executed,
    Cancelled,
}

impl Default for EncryptedOrderStatus {
    fn default() -> (status: Self)
        ensures
            status == EncryptedOrderStatus::Active,
    {
        EncryptedOrderStatus::Active
    }
}

impl EncryptedOrderStatus {
    /// The wire byte of this status.
    pub open spec fn spec_to_u8(self) -> u8 {
        match self {
            EncryptedOrderStatus::Active => 0u8,
            EncryptedOrderStatus::Triggered => 1u8,
            EncryptedOrderStatus::Executed => 2u8,
            EncryptedOrderStatus::Cancelled => 3u8,
        }
    }

    /// Whether no transition leaves this status.
    pub open spec fn is_terminal(self) -> bool {
        self == EncryptedOrderStatus::Executed || self == EncryptedOrderStatus::Cancelled
    }

    #[verifier::when_used_as_spec(spec_to_u8)]
    pub fn to_u8(self) -> (byte: u8)
        ensures
            byte == self.spec_to_u8(),
    {
        match self {
            EncryptedOrderStatus::Active => 0,
            EncryptedOrderStatus::Triggered => 1,
            EncryptedOrderStatus::Executed => 2,
            EncryptedOrderStatus::Cancelled => 3,
        }
    }
}

/// The stored record of a ciphertext order.
#[derive(Clone, Debug, PartialEq, Eq)]
pub struct EncryptedOrder {
    pub owner: Pubkey,
    pub order_hash: [u8; 32],
    pub executor_authority: Pubkey,
    pub encrypted_data: [u8; 256],
    pub data_len: u16,
    pub feed_id: [u8; 32],
    pub created_at: i64,
    pub triggered_at: i64,
    pub execution_price: i64,
    pub status: EncryptedOrderStatus,
    pub is_delegated: bool,
    pub bump: u8,
}

impl EncryptedOrder {
    /// Seed prefix of the record's derived address: `encrypted_order`.
    pub const SEED_PREFIX: [u8; 15] = [
        101, 110, 99, 114, 121, 112, 116, 101, 100, 95, 111, 114, 100, 101, 114,
    ];

    /// Bytes the record occupies in storage, its 8-byte tag included.
    pub const LEN: usize = 8 + 32 + 32 + 32 + MAX_ENCRYPTED_DATA_LEN + 2 + 32 + 8 + 8 + 8 + 1 + 1
        + 1;

    /// The ciphertext proper: the first `data_len` bytes of the blob.
    pub open spec fn ciphertext(&self) -> Seq<u8> {
        self.encrypted_data@.subrange(0, self.data_len as int)
    }

    pub open spec fn spec_is_active(&self) -> bool {
        self.status == EncryptedOrderStatus::Active
    }

    pub open spec fn spec_is_triggered(&self) -> bool {
        self.status == EncryptedOrderStatus::Triggered
    }

    #[verifier::when_used_as_spec(spec_is_active)]
    pub fn is_active(&self) -> (active: bool)
        ensures
            active == self.spec_is_active(),
    {
        self.status == EncryptedOrderStatus::Active
    }

    #[verifier::when_used_as_spec(spec_is_triggered)]
    pub fn is_triggered(&self) -> (triggered: bool)
        ensures
            triggered == self.spec_is_triggered(),
    {
        self.status == EncryptedOrderStatus::Triggered
    }

    /// The ciphertext proper.
    pub fn get_encrypted_data(&self) -> (data: &[u8])
        requires
            self.data_len <= 256,
        ensures
            data@ == self.ciphertext(),
    {
        slice_subrange(self.encrypted_data.as_slice(), 0, self.data_len as usize)
    }
}

impl Default for EncryptedOrder {
    fn default() -> (order: Self)
        ensures
            order.owner@ == zero_key(),
            order.order_hash@ == zero_key(),
            order.executor_authority@ == zero_key(),
            order.feed_id@ == zero_key(),
            forall|i: int| 0 <= i < 256 ==> order.encrypted_data@[i] == 0u8,
            order.data_len == 0,
            order.created_at == 0,
            order.triggered_at == 0,
            order.execution_price == 0,
            order.status == EncryptedOrderStatus::Active,
            !order.is_delegated,
            order.bump == 0,
    {
        let order = EncryptedOrder {
            owner: [0u8; 32],
            order_hash: [0u8; 32],
            executor_authority: [0u8; 32],
            encrypted_data: [0u8; 256],
            data_len: 0,
            feed_id: [0u8; 32],
            created_at: 0,
            triggered_at: 0,
            execution_price: 0,
            status: EncryptedOrderStatus::Active,
            is_delegated: false,
            bump: 0,
        };
        assert(order.owner@ =~= zero_key());
        assert(order.order_hash@ =~= zero_key());
        assert(order.executor_authority@ =~= zero_key());
        assert(order.feed_id@ =~= zero_key());
        order
    }
}

} // verus!
