//! Initialization and the administrative operations.

use vstd::prelude::*;
use crate::bytes::{all_zero, is_zero};
use crate::contexts::{
    Initialize, ResetNonce, Unwhitelist, UpdateAuthority, UpdatePaused, UpdateTss, Whitelist,
};
use crate::crypto::slices_view;
use crate::errors::Errors;
use crate::state::{InstructionId, Pda, Pubkey, WhitelistEntry};
use crate::utils::validate_message::{message_outcome, validate_message_with};
use crate::utils::verify_and_update_nonce::after_nonce_check;
use crate::utils::verify_authority::verify_authority;

verus! {

/// The state of a gateway that has just been initialized by `signer`.
pub open spec fn initial_state(signer: Pubkey, tss_address: [u8; 20], chain_id: u64) -> Pda {
    Pda { nonce: 0, tss_address, authority: signer, chain_id, deposit_paused: false }
}

/// Initializes the gateway, once: the signer becomes the authority, the nonce starts at
/// zero and deposits are open. An account that holds a state already is left as it is.
pub fn initialize(account: &mut Option<Pda>, ctx: &Initialize, tss_address: [u8; 20], chain_id: u64) -> (done:
    Result<(), Errors>)
    ensures
        *old(account) is None ==> done is Ok && *final(account) == Some(
            initial_state(ctx.signer, tss_address, chain_id),
        ),
        *old(account) is Some ==> done == Err::<(), Errors>(Errors::AlreadyInitialized)
            && *final(account) == *old(account),
{
    if account.is_some() {
        return Err(Errors::AlreadyInitialized);
    }
    *account = Some(
        Pda { nonce: 0, tss_address, authority: ctx.signer, chain_id, deposit_paused: false },
    );
    Ok(())
}

/// What an administrative operation answers to `signer`.
pub open spec fn authority_outcome(pda: Pda, signer: Pubkey) -> Result<(), Errors> {
    if signer == pda.authority {
        Ok(())
    } else {
        Err(Errors::SignerIsNotAuthority)
    }
}

/// Replaces the trusted signer. Only for the authority. The nonce stays where it is, so that
/// no message accepted under the old signer's nonces can come again under the new one's;
/// authority, chain id and pause flag stay as well.
pub fn update_tss(pda: &mut Pda, ctx: &UpdateTss, tss_address: [u8; 20]) -> (done: Result<(), Errors>)
    ensures
        done == authority_outcome(*old(pda), ctx.signer),
        done is Ok ==> *final(pda) == (Pda { tss_address, ..*old(pda) }),
        done is Err ==> *final(pda) == *old(pda),
        final(pda).nonce == old(pda).nonce,
{
    match verify_authority(&ctx.signer, pda) {
        Ok(()) => {},
        Err(error) => {
            return Err(error);
        },
    }
    pda.tss_address = tss_address;
    Ok(())
}

/// Hands the authority over to `new_authority_address`. Only for the authority.
pub fn update_authority(pda: &mut Pda, ctx: &UpdateAuthority, new_authority_address: Pubkey) -> (done:
    Result<(), Errors>)
    ensures
        done == authority_outcome(*old(pda), ctx.signer),
        done is Ok ==> *final(pda) == (Pda { authority: new_authority_address, ..*old(pda) }),
        done is Err ==> *final(pda) == *old(pda),
        final(pda).nonce == old(pda).nonce,
{
    match verify_authority(&ctx.signer, pda) {
        Ok(()) => {},
        Err(error) => {
            return Err(error);
        },
    }
    pda.authority = new_authority_address;
    Ok(())
}

/// Pauses or reopens deposits. Only for the authority.
pub fn set_deposit_paused(pda: &mut Pda, ctx: &UpdatePaused, deposit_paused: bool) -> (done: Result<
    (),
    Errors,
>)
    ensures
        done == authority_outcome(*old(pda), ctx.signer),
        done is Ok ==> *final(pda) == (Pda { deposit_paused, ..*old(pda) }),
        done is Err ==> *final(pda) == *old(pda),
        final(pda).nonce == old(pda).nonce,
{
    match verify_authority(&ctx.signer, pda) {
        Ok(()) => {},
        Err(error) => {
            return Err(error);
        },
    }
    pda.deposit_paused = deposit_paused;
    Ok(())
}

/// Sets the nonce that the next signed message must carry. Only for the authority.
pub fn reset_nonce(pda: &mut Pda, ctx: &ResetNonce, new_nonce: u64) -> (done: Result<(), Errors>)
    ensures
        done == authority_outcome(*old(pda), ctx.signer),
        done is Ok ==> *final(pda) == (Pda { nonce: new_nonce, ..*old(pda) }),
        done is Err ==> *final(pda) == *old(pda),
{
    match verify_authority(&ctx.signer, pda) {
        Ok(()) => {},
        Err(error) => {
            return Err(error);
        },
    }
    pda.nonce = new_nonce;
    Ok(())
}

/// What a change of the allow-list answers. With a signature, the trusted signer must have
/// signed the instruction kind and the mint under the expected nonce; with the all-zero
/// signature, the caller must be the authority. Nothing is allowed by default.
pub open spec fn allow_list_outcome(
    pda: Pda,
    authority: Pubkey,
    instruction_id: InstructionId,
    mint: Pubkey,
    signature: Seq<u8>,
    recovery_id: u8,
    message_hash: Seq<u8>,
    nonce: u64,
) -> Result<(), Errors> {
    if all_zero(signature) {
        authority_outcome(pda, authority)
    } else {
        message_outcome(
            pda,
            instruction_id,
            nonce,
            None,
            seq![mint@],
            message_hash,
            signature,
            recovery_id,
        )
    }
}

/// The state after a change of the allow-list was asked for: a signed request goes through
/// the nonce check, the authority's unsigned request leaves the state alone.
pub open spec fn after_allow_list_request(pda: Pda, signature: Seq<u8>, nonce: u64) -> Pda {
    if all_zero(signature) {
        pda
    } else {
        after_nonce_check(pda, nonce)
    }
}

/// Decides a change of the allow-list for `mint`, on the trusted signer's signature or, where
/// the signature is all zero, on the authority's own request. A signed request uses up its
/// nonce like every signed message, also where hash or signature then fail; the authority's
/// request and a request with another nonce leave the state as it is.
pub fn validate_signature_or_authority(
    pda: &mut Pda,
    authority: &Pubkey,
    instruction_id: InstructionId,
    mint: &Pubkey,
    signature: &[u8; 64],
    recovery_id: u8,
    message_hash: &[u8; 32],
    nonce: u64,
) -> (done: Result<(), Errors>)
    requires
        !all_zero(signature@) && nonce == old(pda).nonce ==> nonce < u64::MAX,
    ensures
        done == allow_list_outcome(
            *old(pda),
            *authority,
            instruction_id,
            *mint,
            signature@,
            recovery_id,
            message_hash@,
            nonce,
        ),
        *final(pda) == after_allow_list_request(*old(pda), signature@, nonce),
        all_zero(signature@) || nonce != old(pda).nonce ==> *final(pda) == *old(pda),
        !all_zero(signature@) && nonce == old(pda).nonce ==> final(pda).nonce == old(pda).nonce
            + 1,
{
    if !is_zero(signature) {
        let additional_data: [&[u8]; 1] = [mint];
        assert(slices_view(additional_data@) =~= seq![mint@]);
        validate_message_with(
            pda,
            instruction_id,
            nonce,
            None,
            &additional_data,
            message_hash,
            signature,
            recovery_id,
        )
    } else {
        verify_authority(authority, pda)
    }
}

/// Allows a token: on success the entry that marks its mint as allowed is handed out.
pub fn whitelist_spl_mint(
    pda: &mut Pda,
    ctx: &Whitelist,
    signature: [u8; 64],
    recovery_id: u8,
    message_hash: [u8; 32],
    nonce: u64,
) -> (done: Result<WhitelistEntry, Errors>)
    requires
        !all_zero(signature@) && nonce == old(pda).nonce ==> nonce < u64::MAX,
    ensures
        match done {
            Ok(_) => allow_list_outcome(
                *old(pda),
                ctx.authority,
                InstructionId::WhitelistSplToken,
                ctx.whitelist_candidate,
                signature@,
                recovery_id,
                message_hash@,
                nonce,
            ) is Ok,
            Err(error) => allow_list_outcome(
                *old(pda),
                ctx.authority,
                InstructionId::WhitelistSplToken,
                ctx.whitelist_candidate,
                signature@,
                recovery_id,
                message_hash@,
                nonce,
            ) == Err::<(), Errors>(error),
        },
        *final(pda) == after_allow_list_request(*old(pda), signature@, nonce),
{
    match validate_signature_or_authority(
        pda,
        &ctx.authority,
        InstructionId::WhitelistSplToken,
        &ctx.whitelist_candidate,
        &signature,
        recovery_id,
        &message_hash,
        nonce,
    ) {
        Ok(()) => Ok(WhitelistEntry {  }),
        Err(error) => Err(error),
    }
}

/// Disallows a token: on success the entry of its mint is to be removed.
pub fn unwhitelist_spl_mint(
    pda: &mut Pda,
    ctx: &Unwhitelist,
    signature: [u8; 64],
    recovery_id: u8,
    message_hash: [u8; 32],
    nonce: u64,
) -> (done: Result<(), Errors>)
    requires
        !all_zero(signature@) && nonce == old(pda).nonce ==> nonce < u64::MAX,
    ensures
        done == allow_list_outcome(
            *old(pda),
            ctx.authority,
            InstructionId::UnwhitelistSplToken,
            ctx.whitelist_candidate,
            signature@,
            recovery_id,
            message_hash@,
            nonce,
        ),
        *final(pda) == after_allow_list_request(*old(pda), signature@, nonce),
{
    validate_signature_or_authority(
        pda,
        &ctx.authority,
        InstructionId::UnwhitelistSplToken,
        &ctx.whitelist_candidate,
        &signature,
        recovery_id,
        &message_hash,
        nonce,
    )
}

} // verus!
