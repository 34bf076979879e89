//! Hash-committed and ciphertext orders with their authority registry.

pub mod constants;
pub mod drift_cpi;
pub mod errors;
pub mod instructions;
pub mod state;
