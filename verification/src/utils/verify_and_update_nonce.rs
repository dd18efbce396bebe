//! The nonce ledger: one number, advanced once per accepted message.

use vstd::prelude::*;
use crate::errors::Errors;
use crate::state::Pda;

verus! {

/// The state after a message with `nonce` has been through the nonce check: advanced by one
/// where the nonce was the expected one, untouched where it was not.
pub open spec fn after_nonce_check(pda: Pda, nonce: u64) -> Pda {
    if nonce == pda.nonce {
        Pda { nonce: (pda.nonce + 1) as u64, ..pda }
    } else {
        pda
    }
}

/// Accepts `nonce` if it is the one expected next, and then expects the one after it.
/// A refused nonce changes nothing.
pub fn verify_and_update_nonce(pda: &mut Pda, nonce: u64) -> (checked: Result<(), Errors>)
    requires
        nonce == old(pda).nonce ==> nonce < u64::MAX,
    ensures
        checked == if nonce == old(pda).nonce {
            Ok::<(), Errors>(())
        } else {
            Err(Errors::NonceMismatch)
        },
        *final(pda) == after_nonce_check(*old(pda), nonce),
        nonce == old(pda).nonce ==> final(pda).nonce == old(pda).nonce + 1,
{
    if nonce != pda.nonce {
        return Err(Errors::NonceMismatch);
    }
    pda.nonce += 1;
    Ok(())
}

} // verus!
