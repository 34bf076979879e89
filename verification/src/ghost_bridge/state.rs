//! The records this engine keeps.

pub mod compressed_order;
pub mod encrypted_order;
pub mod executor_authority;

pub use compressed_order::{CompressedGhostOrder, OrderSide, TriggerCondition};
pub use compressed_order::{
    lemma_expiry, lemma_hash_deterministic, lemma_preimage_injective, lemma_preimage_layout,
    lemma_trigger_boundary,
};
pub use executor_authority::{
    ExecutorAuthority, MAX_AUTHORIZED_EXECUTORS, MAX_ORDERS_PER_EXECUTOR,
};
pub use executor_authority::{
    lemma_add_then_remove, lemma_allow_list, lemma_push_keeps_distinct, lemma_remove_makes_room,
};
pub use encrypted_order::{EncryptedOrder, EncryptedOrderStatus, MAX_ENCRYPTED_DATA_LEN};
