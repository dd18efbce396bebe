//! The signature verifier: recovers the address that signed a hash and holds it against the
//! trusted signer's.

use vstd::prelude::*;
use crate::bytes::array_eq;
use crate::crypto::{keccak256, keccak_hash, recover_public_key, secp256k1_recovered};
use crate::errors::Errors;
use crate::state::Pda;

verus! {

/// The address of a public key: the last 20 of the 32 bytes of the key's Keccak-256 digest.
pub open spec fn eth_address_of(public_key: Seq<u8>) -> Seq<u8> {
    keccak256(public_key).subrange(12, 32)
}

/// The address that signed `message_hash`, or `None` where the signature recovers to no key.
pub open spec fn recovered_address(message_hash: Seq<u8>, recovery_id: u8, signature: Seq<u8>) -> Option<
    Seq<u8>,
> {
    match secp256k1_recovered(message_hash, recovery_id, signature) {
        Some(public_key) => Some(eth_address_of(public_key)),
        None => None,
    }
}

/// What the signature check says: a signature that recovers to no key fails the recovery,
/// one that recovers to another address than `expected` fails the authentication, and only
/// one that recovers to exactly `expected` is accepted.
pub open spec fn signature_outcome(
    message_hash: Seq<u8>,
    recovery_id: u8,
    signature: Seq<u8>,
    expected: Seq<u8>,
) -> Result<(), Errors> {
    match recovered_address(message_hash, recovery_id, signature) {
        None => Err(Errors::RecoveryFailed),
        Some(address) => if address == expected {
            Ok(())
        } else {
            Err(Errors::TSSAuthenticationFailed)
        },
    }
}

/// The last 20 bytes of a digest.
pub fn address_of_digest(digest: &[u8; 32]) -> (address: [u8; 20])
    ensures
        address@ == digest@.subrange(12, 32),
{
    let mut address = [0u8; 20];
    let mut i: usize = 0;
    while i < 20
        invariant
            i <= 20,
            forall|j: int| 0 <= j < i ==> address@[j] == digest@[12 + j],
        decreases 20 - i,
    {
        address[i] = digest[12 + i];
        i += 1;
    }
    assert(address@ =~= digest@.subrange(12, 32));
    address
}

/// Accepts a recovered address if and only if it is, byte for byte, the expected one.
pub fn check_address(address: &[u8; 20], expected: &[u8; 20]) -> (checked: Result<(), Errors>)
    ensures
        checked == if address@ == expected@ {
            Ok::<(), Errors>(())
        } else {
            Err(Errors::TSSAuthenticationFailed)
        },
{
    if array_eq(address, expected) {
        Ok(())
    } else {
        Err(Errors::TSSAuthenticationFailed)
    }
}

/// Recovers the address that signed `message_hash`.
pub fn recover_eth_address(message_hash: &[u8; 32], recovery_id: u8, signature: &[u8; 64]) -> (recovered:
    Result<[u8; 20], Errors>)
    ensures
        match recovered {
            Ok(address) => recovered_address(message_hash@, recovery_id, signature@) == Some(
                address@,
            ),
            Err(error) => error == Errors::RecoveryFailed && recovered_address(
                message_hash@,
                recovery_id,
                signature@,
            ) is None,
        },
{
    match recover_public_key(message_hash, recovery_id, signature) {
        Ok(public_key) => {
            let digest = keccak_hash(&public_key);
            Ok(address_of_digest(&digest))
        },
        Err(_) => Err(Errors::RecoveryFailed),
    }
}

/// Verifies that `signature` over `message_hash` was made by `expected`.
pub fn verify(message_hash: &[u8; 32], recovery_id: u8, signature: &[u8; 64], expected: &[u8; 20]) -> (checked:
    Result<(), Errors>)
    ensures
        checked == signature_outcome(message_hash@, recovery_id, signature@, expected@),
{
    match recover_eth_address(message_hash, recovery_id, signature) {
        Ok(address) => check_address(&address, expected),
        Err(error) => Err(error),
    }
}

/// Verifies that `signature` over `message_hash` was made by the trusted signer of `pda`.
pub fn recover_and_verify_eth_address(
    pda: &Pda,
    message_hash: &[u8; 32],
    recovery_id: u8,
    signature: &[u8; 64],
) -> (checked: Result<(), Errors>)
    ensures
        checked == signature_outcome(message_hash@, recovery_id, signature@, pda.tss_address@),
{
    verify(message_hash, recovery_id, signature, &pda.tss_address)
}

} // verus!
