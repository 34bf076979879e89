//! Identities of the programs this engine talks to, as raw 32-byte values.

use vstd::prelude::*;

verus! {

/// The program that schedules commits, hand-backs and monitoring tasks.
/// Base58: `Magic11111111111111111111111111111111111111`.
pub const MAGIC_PROGRAM_ID: [u8; 32] = [
    5, 69, 180, 36, 176, 218, 112, 149,
    236, 185, 214, 222, 195, 119, 215, 40,
    145, 182, 231, 142, 146, 234, 18, 214,
    223, 187, 58, 64, 0, 0, 0, 0,
];

/// The context account that the scheduling program writes to.
/// Base58: `MagicContext1111111111111111111111111111111`.
pub const MAGIC_CONTEXT_ID: [u8; 32] = [
    5, 69, 180, 36, 196, 165, 40, 191,
    95, 180, 3, 47, 68, 82, 130, 142,
    187, 56, 171, 193, 210, 220, 151, 247,
    63, 139, 148, 84, 128, 0, 0, 0,
];

/// The program that moves custody of an account between execution domains.
/// Base58: `DELeGGvXpWV2fqJUhqcF5ZSYMS4JTLjteaAMARRSaeSh`.
pub const DELEGATION_PROGRAM_ID: [u8; 32] = [
    181, 183, 0, 225, 242, 87, 58, 192,
    204, 6, 34, 1, 52, 74, 207, 151,
    184, 53, 6, 235, 140, 229, 25, 152,
    204, 98, 126, 24, 147, 128, 167, 62,
];

/// The perpetual-futures venue that settles orders.
/// Base58: `dRiftyHA39MWEi3m9aunc5MzRF1JYuBsbn6VPcn33UH`.
pub const DRIFT_PROGRAM_ID: [u8; 32] = [
    9, 84, 219, 190, 158, 201, 96, 201,
    138, 122, 41, 63, 226, 19, 54, 150,
    111, 225, 128, 209, 81, 174, 75, 129,
    121, 86, 31, 137, 133, 74, 83, 246,
];

/// The oracle system that must own every price feed read here.
/// Base58: `rec5EKMGg6MxZYaMdyBfgwp4d5rB9T1VQH5pJv5LtFJ`.
pub const PYTH_RECEIVER_ID: [u8; 32] = [
    12, 183, 250, 187, 82, 247, 166, 72,
    187, 91, 49, 125, 154, 1, 139, 144,
    87, 203, 2, 71, 116, 250, 254, 1,
    230, 196, 223, 152, 204, 56, 88, 129,
];

/// The system program.
pub const SYSTEM_PROGRAM_ID: [u8; 32] = [
    0, 0, 0, 0, 0, 0, 0, 0,
    0, 0, 0, 0, 0, 0, 0, 0,
    0, 0, 0, 0, 0, 0, 0, 0,
    0, 0, 0, 0, 0, 0, 0, 0,
];

/// This engine's own identity for the hash-committed and ciphertext orders.
/// Base58: `8w95bQ7UzKHKa4NYvyVeAVGN3dMgwshJhhTinPfabMLA`.
pub const ID: [u8; 32] = [
    117, 224, 78, 174, 39, 158, 80, 14,
    182, 119, 78, 155, 8, 96, 226, 186,
    240, 35, 121, 27, 146, 146, 203, 148,
    228, 56, 247, 143, 93, 47, 104, 71,
];

} // verus!
