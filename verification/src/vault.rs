//! The risk-limiting vault: daily trade counters, lockouts and swap
//! bookkeeping, kept per owner beside the order engine.

pub mod errors;
pub mod instructions;
pub mod state;

use vstd::prelude::*;

verus! {

/// The vault's own identity.
/// Base58: `GaxNRQXHVoYJQQEmXGRWSmBRmAvt7iWBtUuYWf8f8pki`.
pub const ID: [u8; 32] = [
    231, 146, 19, 174, 253, 57, 65, 66,
    244, 115, 22, 42, 0, 164, 247, 226,
    158, 107, 136, 25, 255, 15, 213, 3,
    60, 207, 192, 241, 243, 203, 251, 91,
];

} // verus!
