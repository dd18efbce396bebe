//! The cryptography that the gateway takes from the ledger's SDK. Nothing in this file is
//! proved: each function states what the SDK's function is relied on to do.

use vstd::prelude::*;

verus! {

/// The Keccak-256 digest of a byte string.
pub uninterp spec fn keccak256(data: Seq<u8>) -> Seq<u8>;

/// The 64-byte public key that secp256k1 recovery yields for a message hash, a recovery id
/// and a signature, or `None` where recovery fails.
pub uninterp spec fn secp256k1_recovered(hash: Seq<u8>, recovery_id: u8, signature: Seq<u8>) -> Option<Seq<u8>>;

/// The program-derived address that the ledger finds for a list of seeds under a program, with
/// its bump seed, or `None` where no bump seed gives one.
pub uninterp spec fn program_address(seeds: Seq<Seq<u8>>, program_id: Seq<u8>) -> Option<(Seq<u8>, u8)>;

/// The reason for which the SDK's secp256k1 recovery fails.
#[verifier::external_type_specification]
#[verifier::external_body]
pub struct ExSecp256k1RecoverError(solana_program::secp256k1_recover::Secp256k1RecoverError);

/// What a recovery handed back, as the optional key that it stands for.
pub open spec fn recovery_view(
    recovered: Result<[u8; 64], solana_program::secp256k1_recover::Secp256k1RecoverError>,
) -> Option<Seq<u8>> {
    match recovered {
        Ok(key) => Some(key@),
        Err(_) => None,
    }
}

/// What an address search handed back, as mathematical values.
pub open spec fn search_view(found: Option<([u8; 32], u8)>) -> Option<(Seq<u8>, u8)> {
    match found {
        Some((address, bump)) => Some((address@, bump)),
        None => None,
    }
}

/// A list of byte slices, each as the byte string it is.
pub open spec fn slices_view(slices: Seq<&[u8]>) -> Seq<Seq<u8>> {
    Seq::new(slices.len(), |i: int| slices[i]@)
}

/// Calls `solana_program::keccak::hash` and hands back the 32 bytes of the digest.
///
/// Relied on: the digest is the Keccak-256 digest of exactly the bytes passed in, the same
/// for the same bytes wherever it is computed.
#[verifier::external_body]
pub(crate) fn keccak_hash(data: &[u8]) -> (digest: [u8; 32])
    ensures
        digest@ == keccak256(data@),
{
    solana_program::keccak::hash(data).to_bytes()
}

/// Calls `solana_program::secp256k1_recover::secp256k1_recover` and hands back the recovered
/// key as its 64 bytes, or the SDK's error.
///
/// Relied on: whether a key is recovered, and which, depends on the three arguments alone.
#[verifier::external_body]
pub(crate) fn recover_public_key(hash: &[u8; 32], recovery_id: u8, signature: &[u8; 64]) -> (recovered:
    Result<[u8; 64], solana_program::secp256k1_recover::Secp256k1RecoverError>)
    ensures
        recovery_view(recovered) == secp256k1_recovered(hash@, recovery_id, signature@),
{
    match solana_program::secp256k1_recover::secp256k1_recover(hash, recovery_id, signature) {
        Ok(key) => Ok(key.to_bytes()),
        Err(error) => Err(error),
    }
}

/// Calls `solana_program::pubkey::Pubkey::try_find_program_address` and hands back the address
/// as its 32 bytes, with the bump seed.
///
/// Relied on: the outcome of the search depends on the seeds and the program alone.
#[verifier::external_body]
pub(crate) fn try_find_program_address(seeds: &[&[u8]], program_id: &[u8; 32]) -> (found: Option<
    ([u8; 32], u8),
>)
    ensures
        search_view(found) == program_address(slices_view(seeds@), program_id@),
{
    let program = solana_program::pubkey::Pubkey::new_from_array(*program_id);
    match solana_program::pubkey::Pubkey::try_find_program_address(seeds, &program) {
        Some((address, bump)) => Some((address.to_bytes(), bump)),
        None => None,
    }
}

} // verus!
