//! The operations of the engine, one module each. Every operation is a
//! function from the records it may change, its arguments and what the host
//! observed (time, feed contents, account identities) to either a refusal
//! that changes nothing or the new state with the call to make last.

pub mod authorize_executor;
pub mod cancel_encrypted_order;
pub mod check_price_update;
pub mod close_encrypted_order;
pub mod consume_and_execute;
pub mod create_compressed_order;
pub mod create_encrypted_order;
pub mod delegate_encrypted_order;
pub mod delegate_executor;
pub mod init_executor;
pub mod schedule_encrypted_monitoring;
pub mod trigger_and_execute;
pub mod undelegate_executor;
