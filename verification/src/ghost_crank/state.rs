//! The record of a commitment-reveal order.

pub mod ghost_order;

pub use ghost_order::{GhostOrder, OrderParams, OrderSide, OrderStatus, TriggerCondition};
