//! Deployment constants of the gateway.

use vstd::prelude::*;

verus! {

/// Domain prefix of every message that the trusted signer signs: the ASCII text `ZETACHAIN`.
pub const ZETACHAIN_PREFIX: [u8; 9] = [90, 69, 84, 65, 67, 72, 65, 73, 78];

/// Fixed part, in lamports, of what the gateway pays back to the fee payer of a token withdrawal.
pub const DEFAULT_GAS_COST: u64 = 5000;

/// Largest combined size, in bytes, of a deposit's message and its revert message.
pub const MAX_DEPOSIT_PAYLOAD_SIZE: usize = 745;

/// Fee, in lamports, charged on every deposit.
pub const DEPOSIT_FEE: u64 = 2_000_000;

/// First eight bytes of the payload that a connected program receives for a forward call.
pub const ON_CALL_DISCRIMINATOR: [u8; 8] = [16, 136, 66, 32, 254, 40, 181, 8];

/// First eight bytes of the payload that a connected program receives for a revert.
pub const ON_REVERT_DISCRIMINATOR: [u8; 8] = [226, 44, 101, 52, 224, 214, 41, 9];

/// Address of the token program, the middle seed of every associated token address.
pub const TOKEN_PROGRAM_ID: [u8; 32] = [
    6, 221, 246, 225, 215, 101, 161, 147, 217, 203, 225, 70, 206, 235, 121, 172,
    28, 180, 133, 237, 95, 91, 55, 145, 58, 140, 245, 133, 126, 255, 0, 169,
];

/// Address of the associated token program, under which associated token addresses are derived.
pub const ASSOCIATED_TOKEN_PROGRAM_ID: [u8; 32] = [
    140, 151, 37, 143, 78, 36, 137, 241, 187, 61, 16, 41, 20, 142, 13, 131,
    11, 90, 19, 153, 218, 255, 16, 132, 4, 142, 123, 216, 219, 233, 248, 89,
];

} // verus!
