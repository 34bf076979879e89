//! The operations on commitment-reveal orders, one module each.

pub mod cancel_order;
pub mod check_trigger;
pub mod create_ghost_order;
pub mod delegate_order;
pub mod execute_trigger;
pub mod execute_with_commitment;
pub mod mark_ready;
pub mod schedule_monitoring;
