//! What holds of the gateway as a whole, proved from the contracts of its parts.

use vstd::prelude::*;
use crate::accounts::AccountInfo;
use crate::bytes::{
    lemma_u32_le_roundtrip, lemma_u32_le_unique, lemma_u64_le_roundtrip, lemma_u64_le_unique,
    u32_from_le, u32_le_bytes, u64_be_bytes, u64_le_bytes,
};
use crate::constants::{ON_CALL_DISCRIMINATOR, ON_REVERT_DISCRIMINATOR, ZETACHAIN_PREFIX};
use crate::contexts::{Execute, ExecuteSPLToken, Withdraw, WithdrawSPLToken};
use crate::crypto::keccak256;
use crate::errors::Errors;
use crate::instructions::admin::{after_allow_list_request, allow_list_outcome};
use crate::accounts::{CreateAssociatedTokenAccount, TokenTransferChecked};
use crate::instructions::execute::{
    execute_message, execute_refusal, increment_nonce_outcome, token_execute_refusal,
};
use crate::instructions::withdraw::{
    is_authenticated_token_withdrawal, recipient_ata_missing, token_withdraw_outcome,
    token_withdrawal, withdraw_outcome,
};
use crate::bytes::all_zero;
use crate::state::{
    callable_bytes, length_prefix, parse_callable, parse_fields, CallableInstruction,
    InstructionId, Pda, Pubkey,
};
use crate::utils::prepare_account_metas::names_signer;
use crate::utils::recover_and_verify_eth_address::recovered_address;
use crate::utils::validate_message::message_outcome;
use crate::utils::validate_message_hash::{amount_bytes, concat_all, message_bytes};
use crate::utils::verify_and_update_nonce::after_nonce_check;

verus! {

/// A message that carries the expected nonce, the hash of its own canonical bytes and a
/// signature of the trusted signer over that hash is accepted, and the nonce advances by
/// exactly one.
pub proof fn law_signed_message_is_accepted(
    pda: Pda,
    instruction_id: InstructionId,
    nonce: u64,
    amount: Option<u64>,
    additional_data: Seq<Seq<u8>>,
    message_hash: Seq<u8>,
    signature: Seq<u8>,
    recovery_id: u8,
)
    requires
        nonce == pda.nonce,
        nonce < u64::MAX,
        message_hash == keccak256(
            message_bytes(instruction_id, pda.chain_id, nonce, amount, additional_data),
        ),
        recovered_address(message_hash, recovery_id, signature) == Some(pda.tss_address@),
    ensures
        message_outcome(
            pda,
            instruction_id,
            nonce,
            amount,
            additional_data,
            message_hash,
            signature,
            recovery_id,
        ) is Ok,
        after_nonce_check(pda, nonce).nonce == pda.nonce + 1,
{
}

/// A message that was accepted is never accepted again: the same nonce, hash and signature,
/// submitted after the success, meet a nonce mismatch.
pub proof fn law_replay_is_nonce_mismatch(
    pda: Pda,
    instruction_id: InstructionId,
    nonce: u64,
    amount: Option<u64>,
    additional_data: Seq<Seq<u8>>,
    message_hash: Seq<u8>,
    signature: Seq<u8>,
    recovery_id: u8,
)
    requires
        pda.nonce < u64::MAX,
        message_outcome(
            pda,
            instruction_id,
            nonce,
            amount,
            additional_data,
            message_hash,
            signature,
            recovery_id,
        ) is Ok,
    ensures
        message_outcome(
            after_nonce_check(pda, nonce),
            instruction_id,
            nonce,
            amount,
            additional_data,
            message_hash,
            signature,
            recovery_id,
        ) == Err::<(), Errors>(Errors::NonceMismatch),
{
}

/// A call signed by the trusted signer is relayed exactly once: it is accepted, the nonce
/// advances by exactly one, and the same submission is then refused with a nonce mismatch.
pub proof fn law_execute_succeeds_exactly_once(
    pda: Pda,
    ctx: Execute,
    remaining_accounts: Seq<AccountInfo>,
    amount: u64,
    data: Seq<u8>,
    signature: Seq<u8>,
    recovery_id: u8,
    message_hash: Seq<u8>,
    nonce: u64,
)
    requires
        nonce == pda.nonce,
        nonce < u64::MAX,
        message_hash == keccak256(
            message_bytes(
                InstructionId::ExecuteSol,
                pda.chain_id,
                nonce,
                Some(amount),
                seq![ctx.destination_program@, data],
            ),
        ),
        recovered_address(message_hash, recovery_id, signature) == Some(pda.tss_address@),
        !names_signer(remaining_accounts, ctx.signer),
    ensures
        execute_refusal(
            pda,
            ctx,
            remaining_accounts,
            InstructionId::ExecuteSol,
            amount,
            data,
            signature,
            recovery_id,
            message_hash,
            nonce,
        ) is None,
        after_nonce_check(pda, nonce).nonce == pda.nonce + 1,
        execute_refusal(
            after_nonce_check(pda, nonce),
            ctx,
            remaining_accounts,
            InstructionId::ExecuteSol,
            amount,
            data,
            signature,
            recovery_id,
            message_hash,
            nonce,
        ) == Some(Errors::NonceMismatch),
{
}

/// The parts of a list, one after the other, are the parts before one of them, that part,
/// and the parts behind it.
pub proof fn lemma_concat_all_split(parts: Seq<Seq<u8>>, k: int)
    requires
        0 <= k < parts.len(),
    ensures
        concat_all(parts) == concat_all(parts.take(k)) + parts[k] + concat_all(parts.skip(k + 1)),
    decreases parts.len(),
{
    if k == parts.len() - 1 {
        assert(parts.take(k) =~= parts.drop_last());
        assert(parts.skip(k + 1) =~= Seq::<Seq<u8>>::empty());
        assert(concat_all(parts.skip(k + 1)) =~= Seq::<u8>::empty());
        assert(concat_all(parts) =~= concat_all(parts.take(k)) + parts[k] + concat_all(
            parts.skip(k + 1),
        ));
    } else {
        let front = parts.drop_last();
        lemma_concat_all_split(front, k);
        assert(front.take(k) =~= parts.take(k));
        assert(front[k] == parts[k]);
        let behind = parts.skip(k + 1);
        assert(behind.len() > 0);
        assert(behind.drop_last() =~= front.skip(k + 1));
        assert(behind.last() == parts.last());
        assert(concat_all(behind) == concat_all(front.skip(k + 1)) + parts.last());
        assert(concat_all(parts) =~= concat_all(parts.take(k)) + parts[k] + concat_all(behind));
    }
}

/// Changing one byte of the additional data changes the canonical bytes.
pub proof fn lemma_changed_byte_changes_message(
    instruction_id: InstructionId,
    chain_id: u64,
    nonce: u64,
    amount: Option<u64>,
    additional_data: Seq<Seq<u8>>,
    part: int,
    at: int,
    byte: u8,
)
    requires
        0 <= part < additional_data.len(),
        0 <= at < additional_data[part].len(),
        byte != additional_data[part][at],
    ensures
        message_bytes(
            instruction_id,
            chain_id,
            nonce,
            amount,
            additional_data.update(part, additional_data[part].update(at, byte)),
        ) != message_bytes(instruction_id, chain_id, nonce, amount, additional_data),
{
    let changed = additional_data.update(part, additional_data[part].update(at, byte));
    lemma_concat_all_split(additional_data, part);
    lemma_concat_all_split(changed, part);
    assert(changed.take(part) =~= additional_data.take(part));
    assert(changed.skip(part + 1) =~= additional_data.skip(part + 1));
    let before = concat_all(additional_data.take(part));
    let head = ZETACHAIN_PREFIX@ + seq![instruction_id.spec_discriminant()] + u64_be_bytes(chain_id)
        + u64_be_bytes(nonce) + amount_bytes(amount);
    let place = head.len() + before.len() + at;
    let signed = message_bytes(instruction_id, chain_id, nonce, amount, additional_data);
    let tampered = message_bytes(instruction_id, chain_id, nonce, amount, changed);
    assert(signed == head + concat_all(additional_data));
    assert(tampered == head + concat_all(changed));
    assert(signed[place] == additional_data[part][at]);
    assert(tampered[place] == byte);
}

/// A message whose additional data was changed in one byte after it was signed is refused
/// with a hash mismatch, whatever the signature: never with a failed recovery, never with
/// success. This holds wherever Keccak-256 tells the changed message from the signed one.
pub proof fn law_tampered_data_is_hash_mismatch(
    pda: Pda,
    instruction_id: InstructionId,
    nonce: u64,
    amount: Option<u64>,
    additional_data: Seq<Seq<u8>>,
    part: int,
    at: int,
    byte: u8,
    message_hash: Seq<u8>,
    signature: Seq<u8>,
    recovery_id: u8,
)
    requires
        nonce == pda.nonce,
        0 <= part < additional_data.len(),
        0 <= at < additional_data[part].len(),
        byte != additional_data[part][at],
        message_hash == keccak256(
            message_bytes(instruction_id, pda.chain_id, nonce, amount, additional_data),
        ),
        keccak256(
            message_bytes(
                instruction_id,
                pda.chain_id,
                nonce,
                amount,
                additional_data.update(part, additional_data[part].update(at, byte)),
            ),
        ) == message_hash ==> message_bytes(
            instruction_id,
            pda.chain_id,
            nonce,
            amount,
            additional_data.update(part, additional_data[part].update(at, byte)),
        ) == message_bytes(instruction_id, pda.chain_id, nonce, amount, additional_data),
    ensures
        message_outcome(
            pda,
            instruction_id,
            nonce,
            amount,
            additional_data.update(part, additional_data[part].update(at, byte)),
            message_hash,
            signature,
            recovery_id,
        ) == Err::<(), Errors>(Errors::MessageHashMismatch),
{
    lemma_changed_byte_changes_message(
        instruction_id,
        pda.chain_id,
        nonce,
        amount,
        additional_data,
        part,
        at,
        byte,
    );
}

/// A signature that recovers to an address other than the trusted signer's is refused as a
/// failed authentication, also where nonce and hash are right.
pub proof fn law_foreign_signature_is_refused(
    pda: Pda,
    instruction_id: InstructionId,
    nonce: u64,
    amount: Option<u64>,
    additional_data: Seq<Seq<u8>>,
    message_hash: Seq<u8>,
    signature: Seq<u8>,
    recovery_id: u8,
    signer_address: Seq<u8>,
)
    requires
        nonce == pda.nonce,
        message_hash == keccak256(
            message_bytes(instruction_id, pda.chain_id, nonce, amount, additional_data),
        ),
        recovered_address(message_hash, recovery_id, signature) == Some(signer_address),
        signer_address != pda.tss_address@,
    ensures
        message_outcome(
            pda,
            instruction_id,
            nonce,
            amount,
            additional_data,
            message_hash,
            signature,
            recovery_id,
        ) == Err::<(), Errors>(Errors::TSSAuthenticationFailed),
{
}

/// What a connected program reads back from the wire form of an instruction is the
/// instruction: amount, sender and data come back exactly, for data of up to 2^32 - 1 bytes.
pub proof fn law_unpack_inverts_pack(instruction: CallableInstruction)
    requires
        instruction.data_len() <= u32::MAX,
    ensures
        parse_callable(instruction@.packed()) == Some(instruction@),
{
    match instruction {
        CallableInstruction::OnCall { amount, sender, data } => {
            lemma_fields_roundtrip(ON_CALL_DISCRIMINATOR@, amount, sender@, data@);
            let bytes = instruction@.packed();
            assert(bytes.take(8) =~= ON_CALL_DISCRIMINATOR@);
        },
        CallableInstruction::OnRevert { amount, sender, data } => {
            lemma_fields_roundtrip(ON_REVERT_DISCRIMINATOR@, amount, sender@, data@);
            let bytes = instruction@.packed();
            assert(bytes.take(8) =~= ON_REVERT_DISCRIMINATOR@);
            assert(ON_REVERT_DISCRIMINATOR@[0] != ON_CALL_DISCRIMINATOR@[0]);
            assert(bytes.take(8)[0] == ON_REVERT_DISCRIMINATOR@[0]);
        },
    }
}

/// The fields of a wire form come back from it.
pub proof fn lemma_fields_roundtrip(discriminator: Seq<u8>, amount: u64, sender: Seq<u8>, data: Seq<u8>)
    requires
        discriminator.len() == 8,
        data.len() <= u32::MAX,
    ensures
        parse_fields(callable_bytes(discriminator, amount, sender, data), sender.len() as int)
            == Some((amount, sender, data)),
{
    let bytes = callable_bytes(discriminator, amount, sender, data);
    let n = sender.len() as int;
    lemma_u64_le_roundtrip(amount);
    lemma_u32_le_roundtrip(data.len() as u32);
    assert(length_prefix(data.len()) == u32_le_bytes(data.len() as u32));
    assert(bytes.len() == 20 + n + data.len());
    assert(bytes.subrange(8, 16) =~= u64_le_bytes(amount));
    assert(bytes.subrange(16, 16 + n) =~= sender);
    assert(bytes.subrange(16 + n, 20 + n) =~= u32_le_bytes(data.len() as u32));
    assert(bytes.subrange(20 + n, bytes.len() as int) =~= data);
}

/// The fields that are read from a payload spell the payload: nothing else parses to them.
pub proof fn lemma_fields_are_exact(discriminator: Seq<u8>, bytes: Seq<u8>, sender_len: int)
    requires
        discriminator.len() == 8,
        0 <= sender_len,
        bytes.len() >= 8,
        bytes.take(8) == discriminator,
    ensures
        parse_fields(bytes, sender_len) matches Some((amount, sender, data)) ==> callable_bytes(
            discriminator,
            amount,
            sender,
            data,
        ) == bytes,
{
    if let Some((amount, sender, data)) = parse_fields(bytes, sender_len) {
        let head = 20 + sender_len;
        let amount_bytes = bytes.subrange(8, 16);
        let prefix = bytes.subrange(16 + sender_len, head);
        lemma_u64_le_unique(amount_bytes);
        lemma_u32_le_unique(prefix);
        assert(data.len() == u32_from_le(prefix));
        assert(length_prefix(data.len()) == prefix);
        assert(u64_le_bytes(amount) == amount_bytes);
        assert(callable_bytes(discriminator, amount, sender, data) =~= bytes);
    }
}

/// A connected program reads an instruction from nothing but the instruction's own wire
/// form: whatever parses, packs to the very bytes that were parsed.
pub proof fn law_parse_accepts_wire_forms_only(bytes: Seq<u8>)
    ensures
        parse_callable(bytes) matches Some(instruction) ==> instruction.packed() == bytes,
{
    if bytes.len() >= 8 && bytes.take(8) == ON_CALL_DISCRIMINATOR@ {
        lemma_fields_are_exact(ON_CALL_DISCRIMINATOR@, bytes, 20);
    } else if bytes.len() >= 8 && bytes.take(8) == ON_REVERT_DISCRIMINATOR@ {
        lemma_fields_are_exact(ON_REVERT_DISCRIMINATOR@, bytes, 32);
    }
}

/// Messages of different kinds have different canonical bytes, whatever else they hold: the
/// byte behind the domain prefix tells them apart.
pub proof fn law_kinds_are_separated(
    first: InstructionId,
    second: InstructionId,
    chain_id: u64,
    nonce: u64,
    amount: Option<u64>,
    additional_data: Seq<Seq<u8>>,
    other_chain_id: u64,
    other_nonce: u64,
    other_amount: Option<u64>,
    other_additional_data: Seq<Seq<u8>>,
)
    requires
        first != second,
    ensures
        message_bytes(first, chain_id, nonce, amount, additional_data) != message_bytes(
            second,
            other_chain_id,
            other_nonce,
            other_amount,
            other_additional_data,
        ),
{
    let one = message_bytes(first, chain_id, nonce, amount, additional_data);
    let other = message_bytes(
        second,
        other_chain_id,
        other_nonce,
        other_amount,
        other_additional_data,
    );
    assert(one[9] == first.spec_discriminant());
    assert(other[9] == second.spec_discriminant());
}

/// No signed operation is accepted twice. Whatever was accepted under a nonce, a call
/// relayed with value or with tokens, a withdrawal of value or of tokens, a nonce increment
/// or a signed change of the allow-list, the same submission afterwards meets a nonce
/// mismatch.
pub proof fn law_no_operation_is_replayed(
    pda: Pda,
    execute: Execute,
    token_execute: ExecuteSPLToken,
    withdraw: Withdraw,
    token_withdraw: WithdrawSPLToken,
    authority: Pubkey,
    mint: Pubkey,
    remaining_accounts: Seq<AccountInfo>,
    instruction_id: InstructionId,
    amount: u64,
    sender: Seq<u8>,
    data: Seq<u8>,
    signature: Seq<u8>,
    recovery_id: u8,
    message_hash: Seq<u8>,
    nonce: u64,
)
    requires
        pda.nonce < u64::MAX,
    ensures
        execute_refusal(
            pda,
            execute,
            remaining_accounts,
            instruction_id,
            amount,
            data,
            signature,
            recovery_id,
            message_hash,
            nonce,
        ) is None ==> execute_refusal(
            after_nonce_check(pda, nonce),
            execute,
            remaining_accounts,
            instruction_id,
            amount,
            data,
            signature,
            recovery_id,
            message_hash,
            nonce,
        ) == Some(Errors::NonceMismatch),
        token_execute_refusal(
            pda,
            token_execute,
            remaining_accounts,
            instruction_id,
            amount,
            sender,
            data,
            signature,
            recovery_id,
            message_hash,
            nonce,
        ) is None ==> token_execute_refusal(
            after_nonce_check(pda, nonce),
            token_execute,
            remaining_accounts,
            instruction_id,
            amount,
            sender,
            data,
            signature,
            recovery_id,
            message_hash,
            nonce,
        ) == Some(Errors::NonceMismatch),
        withdraw_outcome(pda, withdraw, amount, signature, recovery_id, message_hash, nonce)
            is Ok ==> withdraw_outcome(
            after_nonce_check(pda, nonce),
            withdraw,
            amount,
            signature,
            recovery_id,
            message_hash,
            nonce,
        ) == Err::<(), Errors>(Errors::NonceMismatch),
        token_withdraw_outcome(
            pda,
            token_withdraw,
            amount,
            signature,
            recovery_id,
            message_hash,
            nonce,
        ) is Ok ==> token_withdraw_outcome(
            after_nonce_check(pda, nonce),
            token_withdraw,
            amount,
            signature,
            recovery_id,
            message_hash,
            nonce,
        ) == Err::<(), Errors>(Errors::NonceMismatch),
        increment_nonce_outcome(pda, amount, signature, recovery_id, message_hash, nonce)
            is Ok ==> increment_nonce_outcome(
            after_nonce_check(pda, nonce),
            amount,
            signature,
            recovery_id,
            message_hash,
            nonce,
        ) == Err::<(), Errors>(Errors::NonceMismatch),
        !all_zero(signature) && allow_list_outcome(
            pda,
            authority,
            instruction_id,
            mint,
            signature,
            recovery_id,
            message_hash,
            nonce,
        ) is Ok ==> allow_list_outcome(
            after_allow_list_request(pda, signature, nonce),
            authority,
            instruction_id,
            mint,
            signature,
            recovery_id,
            message_hash,
            nonce,
        ) == Err::<(), Errors>(Errors::NonceMismatch),
{
}

/// The nonce never goes back under a signed message, and it moves by one or not at all.
pub proof fn law_nonce_moves_forward_by_one(pda: Pda, nonce: u64)
    requires
        pda.nonce < u64::MAX,
    ensures
        after_nonce_check(pda, nonce).nonce == pda.nonce || after_nonce_check(pda, nonce).nonce
            == pda.nonce + 1,
        after_nonce_check(pda, nonce).nonce == pda.nonce + 1 <==> nonce == pda.nonce,
        after_nonce_check(pda, nonce) == (Pda { nonce: after_nonce_check(pda, nonce).nonce, ..pda }),
{
}

/// A wrong hash is decided before the signature is looked at: a message with the expected
/// nonce whose hash is not the hash of its canonical bytes is refused with a hash mismatch,
/// whatever the signature is, also one that recovers to no key or to a foreign one.
pub proof fn law_wrong_hash_is_decided_before_the_signature(
    pda: Pda,
    instruction_id: InstructionId,
    nonce: u64,
    amount: Option<u64>,
    additional_data: Seq<Seq<u8>>,
    message_hash: Seq<u8>,
    signature: Seq<u8>,
    recovery_id: u8,
)
    requires
        nonce == pda.nonce,
        message_hash != keccak256(
            message_bytes(instruction_id, pda.chain_id, nonce, amount, additional_data),
        ),
    ensures
        message_outcome(
            pda,
            instruction_id,
            nonce,
            amount,
            additional_data,
            message_hash,
            signature,
            recovery_id,
        ) == Err::<(), Errors>(Errors::MessageHashMismatch),
{
}

/// A relayed call whose data was changed in one byte after it was signed is refused with a
/// hash mismatch, so that nothing is handed out to be moved or invoked. This holds wherever
/// Keccak-256 tells the changed message from the signed one.
pub proof fn law_execute_refuses_tampered_data(
    pda: Pda,
    ctx: Execute,
    remaining_accounts: Seq<AccountInfo>,
    amount: u64,
    data: Seq<u8>,
    at: int,
    byte: u8,
    signature: Seq<u8>,
    recovery_id: u8,
    message_hash: Seq<u8>,
    nonce: u64,
)
    requires
        nonce == pda.nonce,
        0 <= at < data.len(),
        byte != data[at],
        message_hash == keccak256(
            execute_message(
                pda,
                InstructionId::ExecuteSol,
                ctx.destination_program,
                nonce,
                amount,
                data,
            ),
        ),
        keccak256(
            execute_message(
                pda,
                InstructionId::ExecuteSol,
                ctx.destination_program,
                nonce,
                amount,
                data.update(at, byte),
            ),
        ) == message_hash ==> execute_message(
            pda,
            InstructionId::ExecuteSol,
            ctx.destination_program,
            nonce,
            amount,
            data.update(at, byte),
        ) == execute_message(
            pda,
            InstructionId::ExecuteSol,
            ctx.destination_program,
            nonce,
            amount,
            data,
        ),
    ensures
        execute_refusal(
            pda,
            ctx,
            remaining_accounts,
            InstructionId::ExecuteSol,
            amount,
            data.update(at, byte),
            signature,
            recovery_id,
            message_hash,
            nonce,
        ) == Some(Errors::MessageHashMismatch),
{
    let parts = seq![ctx.destination_program@, data];
    lemma_changed_byte_changes_message(
        InstructionId::ExecuteSol,
        pda.chain_id,
        nonce,
        Some(amount),
        parts,
        1,
        at,
        byte,
    );
    assert(parts.update(1, parts[1].update(at, byte)) =~= seq![
        ctx.destination_program@,
        data.update(at, byte),
    ]);
}

/// A relayed call that carries the expected nonce and the right hash, signed by a key whose
/// address is not the trusted signer's, is refused as a failed authentication, so that
/// nothing is handed out to be moved or invoked.
pub proof fn law_execute_refuses_foreign_signer(
    pda: Pda,
    ctx: Execute,
    remaining_accounts: Seq<AccountInfo>,
    amount: u64,
    data: Seq<u8>,
    signature: Seq<u8>,
    recovery_id: u8,
    message_hash: Seq<u8>,
    nonce: u64,
    signer_address: Seq<u8>,
)
    requires
        nonce == pda.nonce,
        message_hash == keccak256(
            execute_message(
                pda,
                InstructionId::ExecuteSol,
                ctx.destination_program,
                nonce,
                amount,
                data,
            ),
        ),
        recovered_address(message_hash, recovery_id, signature) == Some(signer_address),
        signer_address != pda.tss_address@,
    ensures
        execute_refusal(
            pda,
            ctx,
            remaining_accounts,
            InstructionId::ExecuteSol,
            amount,
            data,
            signature,
            recovery_id,
            message_hash,
            nonce,
        ) == Some(Errors::TSSAuthenticationFailed),
{
}

/// An authentic withdrawal of tokens to a recipient whose token account does not exist yet is
/// accepted: the nonce advances by one, the account is to be created for the recipient and
/// the mint at the fee payer's cost, and the tokens are to move once, from the gateway's
/// token account to the recipient's, checked against mint and decimals.
pub proof fn law_token_withdrawal_creates_missing_account(
    pda: Pda,
    ctx: WithdrawSPLToken,
    decimals: u8,
    amount: u64,
    signature: Seq<u8>,
    recovery_id: u8,
    message_hash: Seq<u8>,
    nonce: u64,
)
    requires
        nonce < u64::MAX,
        is_authenticated_token_withdrawal(
            pda,
            ctx,
            amount,
            signature,
            recovery_id,
            message_hash,
            nonce,
        ),
        recipient_ata_missing(ctx),
    ensures
        token_withdraw_outcome(pda, ctx, amount, signature, recovery_id, message_hash, nonce)
            is Ok,
        after_nonce_check(pda, nonce).nonce == pda.nonce + 1,
        token_withdrawal(ctx, decimals, amount).create_recipient_ata == Some(
            CreateAssociatedTokenAccount {
                payer: ctx.signer,
                wallet: ctx.recipient,
                mint: ctx.mint_account,
                token_program: ctx.token_program,
            },
        ),
        token_withdrawal(ctx, decimals, amount).transfer == (TokenTransferChecked {
            from: ctx.pda_ata,
            mint: ctx.mint_account,
            to: ctx.recipient_ata,
            authority: ctx.pda,
            amount,
            decimals,
        }),
{
}

/// A change of the trusted signer reopens no nonce: what was accepted before the change is
/// still refused with a nonce mismatch after it, whoever the new signer is.
pub proof fn law_signer_change_reopens_no_nonce(
    pda: Pda,
    new_tss_address: [u8; 20],
    instruction_id: InstructionId,
    nonce: u64,
    amount: Option<u64>,
    additional_data: Seq<Seq<u8>>,
    message_hash: Seq<u8>,
    signature: Seq<u8>,
    recovery_id: u8,
)
    requires
        pda.nonce < u64::MAX,
        message_outcome(
            pda,
            instruction_id,
            nonce,
            amount,
            additional_data,
            message_hash,
            signature,
            recovery_id,
        ) is Ok,
    ensures
        message_outcome(
            Pda { tss_address: new_tss_address, ..after_nonce_check(pda, nonce) },
            instruction_id,
            nonce,
            amount,
            additional_data,
            message_hash,
            signature,
            recovery_id,
        ) == Err::<(), Errors>(Errors::NonceMismatch),
{
}

} // verus!
