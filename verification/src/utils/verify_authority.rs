//! Who may run the administrative operations.

use vstd::prelude::*;
use crate::bytes::array_eq;
use crate::errors::Errors;
use crate::state::{Pda, Pubkey};

verus! {

/// Accepts `signer` if and only if it is the authority recorded in the state.
pub fn verify_authority(signer: &Pubkey, pda: &Pda) -> (checked: Result<(), Errors>)
    ensures
        checked == if *signer == pda.authority {
            Ok::<(), Errors>(())
        } else {
            Err(Errors::SignerIsNotAuthority)
        },
{
    if array_eq(signer, &pda.authority) {
        Ok(())
    } else {
        Err(Errors::SignerIsNotAuthority)
    }
}

} // verus!
