//! The size limit on what a deposit carries to the remote chain.

use vstd::prelude::*;
use crate::constants::MAX_DEPOSIT_PAYLOAD_SIZE;
use crate::errors::Errors;
use crate::state::RevertOptions;

verus! {

/// Number of bytes that a message and the revert message of the revert options take
/// together; an absent part counts as empty.
pub open spec fn payload_len(message: Option<Seq<u8>>, revert_options: Option<RevertOptions>) -> nat {
    let message_len = match message {
        Some(bytes) => bytes.len(),
        None => 0,
    };
    let revert_len = match revert_options {
        Some(options) => options.revert_message@.len(),
        None => 0,
    };
    message_len + revert_len
}

/// The message of a deposit as a mathematical value.
pub open spec fn message_view(message: Option<&Vec<u8>>) -> Option<Seq<u8>> {
    match message {
        Some(bytes) => Some(bytes@),
        None => None,
    }
}

/// Accepts a payload if and only if it is no longer than `MAX_DEPOSIT_PAYLOAD_SIZE` bytes.
pub fn verify_payload_size(message: Option<&Vec<u8>>, revert_options: &Option<RevertOptions>) -> (checked:
    Result<(), Errors>)
    ensures
        checked == if payload_len(message_view(message), *revert_options)
            <= MAX_DEPOSIT_PAYLOAD_SIZE {
            Ok::<(), Errors>(())
        } else {
            Err(Errors::MemoLengthExceeded)
        },
{
    let message_len: usize = match message {
        Some(bytes) => bytes.len(),
        None => 0,
    };
    let revert_len: usize = match revert_options {
        Some(options) => options.revert_message.len(),
        None => 0,
    };
    if message_len <= MAX_DEPOSIT_PAYLOAD_SIZE && revert_len <= MAX_DEPOSIT_PAYLOAD_SIZE
        - message_len {
        Ok(())
    } else {
        Err(Errors::MemoLengthExceeded)
    }
}

} // verus!
