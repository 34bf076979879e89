//! The records the vault keeps.

pub mod trader_profile;
pub mod vault;

pub use trader_profile::TraderProfile;
pub use vault::Vault;
