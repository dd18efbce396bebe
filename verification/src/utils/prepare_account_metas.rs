//! The one place where the account list of a relayed call is made.

use vstd::prelude::*;
use crate::accounts::{AccountInfo, AccountMeta};
use crate::bytes::array_eq;
use crate::errors::Errors;
use crate::state::Pubkey;

verus! {

/// How a relayed call names one offered account: never as a signer, and writable only if the
/// sender asked for it and the account is not the gateway's own state.
pub open spec fn relayed_meta(account: AccountInfo, pda: Pubkey) -> AccountMeta {
    AccountMeta {
        pubkey: account.key,
        is_signer: false,
        is_writable: account.key != pda && account.is_writable,
    }
}

/// The account list of a relayed call: one entry per offered account, in the order offered.
pub open spec fn relayed_metas(accounts: Seq<AccountInfo>, pda: Pubkey) -> Seq<AccountMeta> {
    Seq::new(accounts.len(), |i: int| relayed_meta(accounts[i], pda))
}

/// Whether one of the offered accounts is `signer`.
pub open spec fn names_signer(accounts: Seq<AccountInfo>, signer: Pubkey) -> bool {
    exists|i: int| 0 <= i < accounts.len() && (#[trigger] accounts[i]).key == signer
}

/// Makes the account list of a relayed call from the accounts that its sender offers.
///
/// A list that names the relaying signer is refused, so that a connected program never acts
/// with the relay's signature. The gateway's own state is passed read-only whatever was asked.
pub fn prepare_account_metas(remaining_accounts: &[AccountInfo], signer: &Pubkey, pda: &Pubkey) -> (prepared:
    Result<Vec<AccountMeta>, Errors>)
    ensures
        prepared is Ok <==> !names_signer(remaining_accounts@, *signer),
        prepared matches Ok(metas) ==> metas@ == relayed_metas(remaining_accounts@, *pda),
        prepared matches Err(error) ==> error == Errors::InvalidInstructionData,
        prepared matches Ok(metas) ==> metas@.len() == remaining_accounts@.len() && forall|i: int|
            0 <= i < metas@.len() ==> {
                &&& (#[trigger] metas@[i]).pubkey == remaining_accounts@[i].key
                &&& metas@[i].pubkey != *signer
                &&& !metas@[i].is_signer
                &&& remaining_accounts@[i].key == *pda ==> !metas@[i].is_writable
                &&& remaining_accounts@[i].key != *pda ==> metas@[i].is_writable
                    == remaining_accounts@[i].is_writable
            },
{
    let mut account_metas: Vec<AccountMeta> = Vec::new();
    let mut i: usize = 0;
    while i < remaining_accounts.len()
        invariant
            i <= remaining_accounts.len(),
            account_metas@ == relayed_metas(remaining_accounts@.take(i as int), *pda),
            !names_signer(remaining_accounts@.take(i as int), *signer),
        decreases remaining_accounts.len() - i,
    {
        let account = remaining_accounts[i];
        if array_eq(&account.key, signer) {
            assert(remaining_accounts@[i as int].key == *signer);
            return Err(Errors::InvalidInstructionData);
        }
        let writable = !array_eq(&account.key, pda) && account.is_writable;
        account_metas.push(AccountMeta { pubkey: account.key, is_signer: false, is_writable: writable });
        i += 1;
        assert(account_metas@ =~= relayed_metas(remaining_accounts@.take(i as int), *pda));
        assert(!names_signer(remaining_accounts@.take(i as int), *signer)) by {
            if names_signer(remaining_accounts@.take(i as int), *signer) {
                let k = choose|k: int|
                    0 <= k < i && (#[trigger] remaining_accounts@.take(i as int)[k]).key == *signer;
                if k < i - 1 {
                    assert(remaining_accounts@.take(i - 1)[k].key == *signer);
                }
            }
        }
    }
    assert(remaining_accounts@.take(i as int) =~= remaining_accounts@);
    Ok(account_metas)
}

} // verus!
