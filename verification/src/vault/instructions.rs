//! The vault's operations, one module each.

pub mod delegate;
pub mod delegate_profile;
pub mod deposit;
pub mod initialize;
pub mod initialize_profile;
pub mod manual_lock;
pub mod set_rules;
pub mod swap;
pub mod undelegate;
pub mod undelegate_profile;
pub mod unlock;
pub mod update_stats;
pub mod withdraw;
