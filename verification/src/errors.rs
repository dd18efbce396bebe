//! Reasons for which the gateway refuses an operation.

use vstd::prelude::*;

verus! {

/// Every failure is final for the operation that met it: nothing is retried.
#[derive(Clone, Copy, Debug, PartialEq, Eq)]
pub enum Errors {
    /// The caller is not the authority recorded in the gateway state.
    SignerIsNotAuthority,
    /// The supplied nonce is not the one the gateway expects next.
    NonceMismatch,
    /// The signature recovers to an address other than the trusted signer's.
    TSSAuthenticationFailed,
    /// Tokens were sent to an account other than the gateway's associated token account.
    DepositToAddressMismatch,
    /// The supplied message hash is not the hash of the operation's canonical bytes.
    MessageHashMismatch,
    /// Message and revert message together exceed the payload limit.
    MemoLengthExceeded,
    /// Deposits are paused.
    DepositPaused,
    /// A token account is not the associated token account of its owner and mint.
    SPLAtaAndMintAddressMismatch,
    /// The receiver is the all-zero address.
    EmptyReceiver,
    /// The account list of a relayed call names the relaying signer.
    InvalidInstructionData,
    /// No public key can be recovered from the signature and hash.
    RecoveryFailed,
    /// The token is not on the allow-list.
    TokenNotWhitelisted,
    /// The gateway state exists already.
    AlreadyInitialized,
}

} // verus!
