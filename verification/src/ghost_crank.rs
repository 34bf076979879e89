//! Commitment-reveal orders: a price-triggered order is first armed with a
//! public commitment and a short execution window, and its parameters are
//! only revealed, checked and acted on when it is executed.

pub mod instructions;
pub mod state;

use vstd::prelude::*;

verus! {

/// This engine's own identity for commitment-reveal orders.
/// Base58: `7VvD7j99AE7q9PC9atpJeMEUeEzZ5ZYH7WqSzGdmvsqv`.
pub const ID: [u8; 32] = [
    96, 142, 140, 54, 65, 73, 165, 211,
    183, 52, 188, 47, 112, 212, 100, 44,
    87, 174, 105, 236, 143, 90, 35, 185,
    196, 27, 200, 22, 169, 128, 96, 229,
];

} // verus!
