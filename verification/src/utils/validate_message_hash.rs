//! The message codec: the canonical bytes of an operation, and the check of a supplied hash
//! against them. There is no decoder: a hash is verified by computing it again.

use vstd::prelude::*;
use crate::bytes::{array_eq, extend, u64_be_bytes, put_u64_be};
use crate::constants::ZETACHAIN_PREFIX;
use crate::crypto::{keccak256, keccak_hash, slices_view};
use crate::errors::Errors;
use crate::state::InstructionId;

verus! {

/// All the parts, one after the other.
pub open spec fn concat_all(parts: Seq<Seq<u8>>) -> Seq<u8>
    decreases parts.len(),
{
    if parts.len() == 0 {
        Seq::empty()
    } else {
        concat_all(parts.drop_last()) + parts.last()
    }
}

/// The bytes of an optional amount: eight bytes, most significant first, or nothing.
pub open spec fn amount_bytes(amount: Option<u64>) -> Seq<u8> {
    match amount {
        Some(value) => u64_be_bytes(value),
        None => Seq::empty(),
    }
}

/// The canonical bytes of an operation, which the trusted signer signs the hash of: the
/// domain prefix, the number of the instruction kind, chain id and nonce in eight bytes each,
/// most significant first, the amount likewise where there is one, and then the additional
/// data in the order given.
pub open spec fn message_bytes(
    instruction_id: InstructionId,
    chain_id: u64,
    nonce: u64,
    amount: Option<u64>,
    additional_data: Seq<Seq<u8>>,
) -> Seq<u8> {
    ZETACHAIN_PREFIX@ + seq![instruction_id.spec_discriminant()] + u64_be_bytes(chain_id)
        + u64_be_bytes(nonce) + amount_bytes(amount) + concat_all(additional_data)
}

/// Builds the canonical bytes of an operation.
pub fn canonical_bytes(
    instruction_id: InstructionId,
    chain_id: u64,
    nonce: u64,
    amount: Option<u64>,
    additional_data: &[&[u8]],
) -> (buffer: Vec<u8>)
    ensures
        buffer@ == message_bytes(
            instruction_id,
            chain_id,
            nonce,
            amount,
            slices_view(additional_data@),
        ),
{
    let mut buffer: Vec<u8> = Vec::new();
    extend(&mut buffer, &ZETACHAIN_PREFIX);
    buffer.push(instruction_id.discriminant());
    put_u64_be(&mut buffer, chain_id);
    put_u64_be(&mut buffer, nonce);
    if let Some(value) = amount {
        put_u64_be(&mut buffer, value);
    }
    let ghost head = buffer@;
    assert(head =~= ZETACHAIN_PREFIX@ + seq![instruction_id.spec_discriminant()] + u64_be_bytes(
        chain_id,
    ) + u64_be_bytes(nonce) + amount_bytes(amount));
    let mut i: usize = 0;
    assert(slices_view(additional_data@).take(0) =~= Seq::<Seq<u8>>::empty());
    while i < additional_data.len()
        invariant
            i <= additional_data.len(),
            buffer@ == head + concat_all(slices_view(additional_data@).take(i as int)),
        decreases additional_data.len() - i,
    {
        extend(&mut buffer, additional_data[i]);
        i += 1;
        proof {
            let parts = slices_view(additional_data@);
            assert(parts.take(i as int).drop_last() =~= parts.take(i - 1));
            assert(parts.take(i as int).last() == additional_data@[i - 1]@);
            assert(buffer@ =~= head + concat_all(parts.take(i as int)));
        }
    }
    assert(slices_view(additional_data@).take(i as int) =~= slices_view(additional_data@));
    buffer
}

/// Accepts a supplied hash if and only if it is, byte for byte, the hash computed.
pub fn check_message_hash(message_hash: &[u8; 32], computed_hash: &[u8; 32]) -> (checked: Result<
    (),
    Errors,
>)
    ensures
        checked == if message_hash@ == computed_hash@ {
            Ok::<(), Errors>(())
        } else {
            Err(Errors::MessageHashMismatch)
        },
{
    if array_eq(message_hash, computed_hash) {
        Ok(())
    } else {
        Err(Errors::MessageHashMismatch)
    }
}

/// What the hash check says of a supplied hash: accepted if and only if it is the Keccak-256
/// digest of the operation's canonical bytes.
pub open spec fn hash_outcome(
    instruction_id: InstructionId,
    chain_id: u64,
    nonce: u64,
    amount: Option<u64>,
    additional_data: Seq<Seq<u8>>,
    message_hash: Seq<u8>,
) -> Result<(), Errors> {
    if message_hash == keccak256(
        message_bytes(instruction_id, chain_id, nonce, amount, additional_data),
    ) {
        Ok(())
    } else {
        Err(Errors::MessageHashMismatch)
    }
}

/// Computes the hash of an operation's canonical bytes again and holds the supplied hash
/// against it.
pub fn validate_message_hash(
    instruction_id: InstructionId,
    chain_id: u64,
    nonce: u64,
    amount: Option<u64>,
    additional_data: &[&[u8]],
    message_hash: &[u8; 32],
) -> (checked: Result<(), Errors>)
    ensures
        checked == hash_outcome(
            instruction_id,
            chain_id,
            nonce,
            amount,
            slices_view(additional_data@),
            message_hash@,
        ),
{
    let concatenated_buffer = canonical_bytes(
        instruction_id,
        chain_id,
        nonce,
        amount,
        additional_data,
    );
    let computed_hash = keccak_hash(concatenated_buffer.as_slice());
    check_message_hash(message_hash, &computed_hash)
}

} // verus!
