//! The authentication of a signed message: nonce, then hash, then signature.
//!
//! The nonce is consumed before hash and signature are looked at: a message with the expected
//! nonce and a wrong hash or signature is refused and still uses up its nonce.

use vstd::prelude::*;
use crate::crypto::{keccak256, slices_view};
use crate::errors::Errors;
use crate::state::{InstructionId, Pda};
use crate::utils::recover_and_verify_eth_address::{
    recover_and_verify_eth_address, recovered_address, signature_outcome,
};
use crate::utils::validate_message_hash::{hash_outcome, message_bytes, validate_message_hash};
use crate::utils::verify_and_update_nonce::{after_nonce_check, verify_and_update_nonce};

verus! {

/// What the authentication says of a message: the first of the three checks that fails
/// decides, in the order nonce, hash, signature.
pub open spec fn message_outcome(
    pda: Pda,
    instruction_id: InstructionId,
    nonce: u64,
    amount: Option<u64>,
    additional_data: Seq<Seq<u8>>,
    message_hash: Seq<u8>,
    signature: Seq<u8>,
    recovery_id: u8,
) -> Result<(), Errors> {
    if nonce != pda.nonce {
        Err(Errors::NonceMismatch)
    } else if hash_outcome(instruction_id, pda.chain_id, nonce, amount, additional_data, message_hash)
        is Err {
        Err(Errors::MessageHashMismatch)
    } else {
        signature_outcome(message_hash, recovery_id, signature, pda.tss_address@)
    }
}

/// Authenticates a message whose canonical bytes may or may not hold an amount.
pub fn validate_message_with(
    pda: &mut Pda,
    instruction_id: InstructionId,
    nonce: u64,
    amount: Option<u64>,
    additional_data: &[&[u8]],
    message_hash: &[u8; 32],
    signature: &[u8; 64],
    recovery_id: u8,
) -> (checked: Result<(), Errors>)
    requires
        nonce == old(pda).nonce ==> nonce < u64::MAX,
    ensures
        checked == message_outcome(
            *old(pda),
            instruction_id,
            nonce,
            amount,
            slices_view(additional_data@),
            message_hash@,
            signature@,
            recovery_id,
        ),
        *final(pda) == after_nonce_check(*old(pda), nonce),
        nonce != old(pda).nonce ==> checked == Err::<(), Errors>(Errors::NonceMismatch),
        nonce == old(pda).nonce && message_hash@ != keccak256(
            message_bytes(
                instruction_id,
                old(pda).chain_id,
                nonce,
                amount,
                slices_view(additional_data@),
            ),
        ) ==> checked == Err::<(), Errors>(Errors::MessageHashMismatch),
        checked is Ok ==> final(pda).nonce == old(pda).nonce + 1,
{
    match verify_and_update_nonce(pda, nonce) {
        Ok(()) => {},
        Err(error) => {
            return Err(error);
        },
    }
    match validate_message_hash(
        instruction_id,
        pda.chain_id,
        nonce,
        amount,
        additional_data,
        message_hash,
    ) {
        Ok(()) => {},
        Err(error) => {
            return Err(error);
        },
    }
    recover_and_verify_eth_address(pda, message_hash, recovery_id, signature)
}

/// Authenticates a message that carries an amount: checks and consumes the nonce, computes
/// the hash of the canonical bytes again, and verifies the signature over it.
pub fn validate_message(
    pda: &mut Pda,
    instruction_id: InstructionId,
    nonce: u64,
    amount: u64,
    additional_data: &[&[u8]],
    message_hash: &[u8; 32],
    signature: &[u8; 64],
    recovery_id: u8,
) -> (checked: Result<(), Errors>)
    requires
        nonce == old(pda).nonce ==> nonce < u64::MAX,
    ensures
        checked == message_outcome(
            *old(pda),
            instruction_id,
            nonce,
            Some(amount),
            slices_view(additional_data@),
            message_hash@,
            signature@,
            recovery_id,
        ),
        *final(pda) == after_nonce_check(*old(pda), nonce),
        nonce != old(pda).nonce ==> checked == Err::<(), Errors>(Errors::NonceMismatch),
        nonce == old(pda).nonce && message_hash@ != keccak256(
            message_bytes(
                instruction_id,
                old(pda).chain_id,
                nonce,
                Some(amount),
                slices_view(additional_data@),
            ),
        ) ==> checked == Err::<(), Errors>(Errors::MessageHashMismatch),
        nonce == old(pda).nonce && message_hash@ == keccak256(
            message_bytes(
                instruction_id,
                old(pda).chain_id,
                nonce,
                Some(amount),
                slices_view(additional_data@),
            ),
        ) && recovered_address(message_hash@, recovery_id, signature@) is Some
            && recovered_address(message_hash@, recovery_id, signature@) != Some(
            old(pda).tss_address@,
        ) ==> checked == Err::<(), Errors>(Errors::TSSAuthenticationFailed),
        checked is Ok ==> final(pda).nonce == old(pda).nonce + 1,
{
    validate_message_with(
        pda,
        instruction_id,
        nonce,
        Some(amount),
        additional_data,
        message_hash,
        signature,
        recovery_id,
    )
}

} // verus!
