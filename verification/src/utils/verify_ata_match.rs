//! The derivation of associated token addresses, and the check of a token account against it.

use vstd::prelude::*;
use crate::bytes::array_eq;
use crate::constants::{ASSOCIATED_TOKEN_PROGRAM_ID, TOKEN_PROGRAM_ID};
use crate::crypto::{program_address, try_find_program_address};
use crate::errors::Errors;
use crate::state::Pubkey;

verus! {

/// The associated token address of `owner` for `mint`: the address that the ledger derives
/// under the associated token program from owner, token program and mint, in that order.
/// `None` where the ledger derives none.
pub open spec fn associated_token_address(owner: Seq<u8>, mint: Seq<u8>) -> Option<Seq<u8>> {
    match program_address(seq![owner, TOKEN_PROGRAM_ID@, mint], ASSOCIATED_TOKEN_PROGRAM_ID@) {
        Some((address, _)) => Some(address),
        None => None,
    }
}

/// Whether `actual` is the associated token address of `owner` for `mint`.
pub open spec fn is_ata(owner: Seq<u8>, mint: Seq<u8>, actual: Seq<u8>) -> bool {
    associated_token_address(owner, mint) == Some(actual)
}

/// Derives the associated token address of `owner` for `mint`.
pub fn get_associated_token_address(owner: &Pubkey, mint: &Pubkey) -> (address: Option<Pubkey>)
    ensures
        match address {
            Some(found) => associated_token_address(owner@, mint@) == Some(found@),
            None => associated_token_address(owner@, mint@) is None,
        },
{
    let seeds: [&[u8]; 3] = [owner, &TOKEN_PROGRAM_ID, mint];
    assert(crate::crypto::slices_view(seeds@) =~= seq![owner@, TOKEN_PROGRAM_ID@, mint@]);
    match try_find_program_address(&seeds, &ASSOCIATED_TOKEN_PROGRAM_ID) {
        Some((address, _)) => Some(address),
        None => None,
    }
}

/// Accepts a token account if and only if it is, byte for byte, the expected address.
pub fn check_ata(expected_ata: Option<Pubkey>, actual_ata: &Pubkey) -> (checked: Result<(), Errors>)
    ensures
        checked == if expected_ata matches Some(expected) && expected@ == actual_ata@ {
            Ok::<(), Errors>(())
        } else {
            Err(Errors::SPLAtaAndMintAddressMismatch)
        },
{
    match expected_ata {
        Some(expected) => {
            if array_eq(&expected, actual_ata) {
                Ok(())
            } else {
                Err(Errors::SPLAtaAndMintAddressMismatch)
            }
        },
        None => Err(Errors::SPLAtaAndMintAddressMismatch),
    }
}

/// Accepts `actual_ata` if and only if it is the associated token address of `owner` for
/// `mint`.
pub fn verify_ata_match(owner: &Pubkey, mint: &Pubkey, actual_ata: &Pubkey) -> (checked: Result<(), Errors>)
    ensures
        checked == if is_ata(owner@, mint@, actual_ata@) {
            Ok::<(), Errors>(())
        } else {
            Err(Errors::SPLAtaAndMintAddressMismatch)
        },
{
    let expected_ata = get_associated_token_address(owner, mint);
    check_ata(expected_ata, actual_ata)
}

} // verus!
