//! Calls relayed to connected programs on the trusted signer's word, and the nonce increment
//! that skips a message which can never be delivered.

use vstd::prelude::*;
use crate::accounts::{AccountInfo, Instruction, LamportTransfer, TokenTransferChecked};
use crate::contexts::{Execute, ExecuteSPLToken};
use crate::crypto::slices_view;
use crate::errors::Errors;
use crate::state::{CallableInstruction, CallableInstructionView, InstructionId, Pda, Pubkey};
use crate::utils::prepare_account_metas::{names_signer, prepare_account_metas, relayed_metas};
use crate::utils::validate_message::{message_outcome, validate_message};
use crate::utils::validate_message_hash::message_bytes;
use crate::utils::verify_and_update_nonce::after_nonce_check;
use crate::utils::verify_ata_match::{is_ata, verify_ata_match};

verus! {

/// What a relayed call with native value asks of the ledger: first the value moves to the
/// connected program's account, then the program is invoked.
#[derive(Clone, Debug, PartialEq, Eq)]
pub struct Execution {
    pub transfer: LamportTransfer,
    pub instruction: Instruction,
}

/// What a relayed call with tokens asks of the ledger: first the tokens move to the connected
/// program's token account, then the program is invoked.
#[derive(Clone, Debug, PartialEq, Eq)]
pub struct TokenExecution {
    pub transfer: TokenTransferChecked,
    pub instruction: Instruction,
}

/// What the nonce increment answers: the trusted signer must have signed the kind
/// `IncrementNonce` and the amount, with no additional data, under the expected nonce.
pub open spec fn increment_nonce_outcome(
    pda: Pda,
    amount: u64,
    signature: Seq<u8>,
    recovery_id: u8,
    message_hash: Seq<u8>,
    nonce: u64,
) -> Result<(), Errors> {
    message_outcome(
        pda,
        InstructionId::IncrementNonce,
        nonce,
        Some(amount),
        Seq::empty(),
        message_hash,
        signature,
        recovery_id,
    )
}

/// Uses up a nonce and does nothing else: the way past a message that failed off the ledger.
pub fn increment_nonce(
    pda: &mut Pda,
    amount: u64,
    signature: [u8; 64],
    recovery_id: u8,
    message_hash: [u8; 32],
    nonce: u64,
    failure_reason: String,
) -> (done: Result<(), Errors>)
    requires
        nonce == old(pda).nonce ==> nonce < u64::MAX,
    ensures
        done == increment_nonce_outcome(
            *old(pda),
            amount,
            signature@,
            recovery_id,
            message_hash@,
            nonce,
        ),
        *final(pda) == after_nonce_check(*old(pda), nonce),
{
    let additional_data: [&[u8]; 0] = [];
    assert(slices_view(additional_data@) =~= Seq::<Seq<u8>>::empty());
    validate_message(
        pda,
        InstructionId::IncrementNonce,
        nonce,
        amount,
        &additional_data,
        &message_hash,
        &signature,
        recovery_id,
    )
}

/// The reason for which a relayed call is refused, if it is: a failed authentication comes
/// first, then an account list that names the relaying signer.
pub open spec fn relay_refusal(
    authentication: Result<(), Errors>,
    remaining_accounts: Seq<AccountInfo>,
    signer: Pubkey,
) -> Option<Errors> {
    match authentication {
        Err(error) => Some(error),
        Ok(()) => if names_signer(remaining_accounts, signer) {
            Some(Errors::InvalidInstructionData)
        } else {
            None
        },
    }
}

/// The authentication of a relayed call with native value: the trusted signer must have
/// signed the kind, the amount, the connected program and the data under the expected nonce.
pub open spec fn execute_authentication(
    pda: Pda,
    instruction_id: InstructionId,
    destination_program: Pubkey,
    amount: u64,
    data: Seq<u8>,
    signature: Seq<u8>,
    recovery_id: u8,
    message_hash: Seq<u8>,
    nonce: u64,
) -> Result<(), Errors> {
    message_outcome(
        pda,
        instruction_id,
        nonce,
        Some(amount),
        seq![destination_program@, data],
        message_hash,
        signature,
        recovery_id,
    )
}

/// The canonical bytes that the trusted signer signs for a relayed call with native value:
/// kind, chain id, nonce and amount, then the connected program and the data.
pub open spec fn execute_message(
    pda: Pda,
    instruction_id: InstructionId,
    destination_program: Pubkey,
    nonce: u64,
    amount: u64,
    data: Seq<u8>,
) -> Seq<u8> {
    message_bytes(
        instruction_id,
        pda.chain_id,
        nonce,
        Some(amount),
        seq![destination_program@, data],
    )
}

/// The reason for which a relayed call with native value is refused, if it is.
pub open spec fn execute_refusal(
    pda: Pda,
    ctx: Execute,
    remaining_accounts: Seq<AccountInfo>,
    instruction_id: InstructionId,
    amount: u64,
    data: Seq<u8>,
    signature: Seq<u8>,
    recovery_id: u8,
    message_hash: Seq<u8>,
    nonce: u64,
) -> Option<Errors> {
    relay_refusal(
        execute_authentication(
            pda,
            instruction_id,
            ctx.destination_program,
            amount,
            data,
            signature,
            recovery_id,
            message_hash,
            nonce,
        ),
        remaining_accounts,
        ctx.signer,
    )
}

/// Whether `execution` is what a relayed call of `ctx` with `amount` and the payload
/// `instruction_data` asks of the ledger.
pub open spec fn is_execution(
    execution: Execution,
    ctx: Execute,
    remaining_accounts: Seq<AccountInfo>,
    amount: u64,
    instruction_data: Seq<u8>,
) -> bool {
    &&& execution.transfer == LamportTransfer {
        from: ctx.pda,
        to: ctx.destination_program_pda,
        lamports: amount,
    }
    &&& execution.instruction.program_id == ctx.destination_program
    &&& execution.instruction.accounts@ == relayed_metas(remaining_accounts, ctx.pda)
    &&& execution.instruction.data@ == instruction_data
}

/// Authenticates a relayed call with native value and prepares what it asks of the ledger.
fn handle_sol_common(
    pda: &mut Pda,
    ctx: &Execute,
    remaining_accounts: &[AccountInfo],
    amount: u64,
    data: Vec<u8>,
    signature: [u8; 64],
    recovery_id: u8,
    message_hash: [u8; 32],
    nonce: u64,
    instruction_id: InstructionId,
    instruction_data: Vec<u8>,
) -> (executed: Result<Execution, Errors>)
    requires
        nonce == old(pda).nonce ==> nonce < u64::MAX,
    ensures
        match executed {
            Ok(execution) => execute_refusal(
                *old(pda),
                *ctx,
                remaining_accounts@,
                instruction_id,
                amount,
                data@,
                signature@,
                recovery_id,
                message_hash@,
                nonce,
            ) is None && is_execution(
                execution,
                *ctx,
                remaining_accounts@,
                amount,
                instruction_data@,
            ),
            Err(error) => execute_refusal(
                *old(pda),
                *ctx,
                remaining_accounts@,
                instruction_id,
                amount,
                data@,
                signature@,
                recovery_id,
                message_hash@,
                nonce,
            ) == Some(error),
        },
        *final(pda) == after_nonce_check(*old(pda), nonce),
{
    let additional_data: [&[u8]; 2] = [&ctx.destination_program, data.as_slice()];
    assert(slices_view(additional_data@) =~= seq![ctx.destination_program@, data@]);
    match validate_message(
        pda,
        instruction_id,
        nonce,
        amount,
        &additional_data,
        &message_hash,
        &signature,
        recovery_id,
    ) {
        Ok(()) => {},
        Err(error) => {
            return Err(error);
        },
    }
    let account_metas = match prepare_account_metas(remaining_accounts, &ctx.signer, &ctx.pda) {
        Ok(account_metas) => account_metas,
        Err(error) => {
            return Err(error);
        },
    };
    Ok(
        Execution {
            transfer: LamportTransfer {
                from: ctx.pda,
                to: ctx.destination_program_pda,
                lamports: amount,
            },
            instruction: Instruction {
                program_id: ctx.destination_program,
                accounts: account_metas,
                data: instruction_data,
            },
        },
    )
}

/// Sends `amount` to the connected program's account and calls the program's `on_call` with
/// the amount, the remote sender and the data.
pub fn handle_sol(
    pda: &mut Pda,
    ctx: &Execute,
    remaining_accounts: &[AccountInfo],
    amount: u64,
    sender: [u8; 20],
    data: Vec<u8>,
    signature: [u8; 64],
    recovery_id: u8,
    message_hash: [u8; 32],
    nonce: u64,
) -> (executed: Result<Execution, Errors>)
    requires
        nonce == old(pda).nonce ==> nonce < u64::MAX,
    ensures
        match executed {
            Ok(execution) => execute_refusal(
                *old(pda),
                *ctx,
                remaining_accounts@,
                InstructionId::ExecuteSol,
                amount,
                data@,
                signature@,
                recovery_id,
                message_hash@,
                nonce,
            ) is None && is_execution(
                execution,
                *ctx,
                remaining_accounts@,
                amount,
                (CallableInstructionView::OnCall { amount, sender: sender@, data: data@ }).packed(),
            ),
            Err(error) => execute_refusal(
                *old(pda),
                *ctx,
                remaining_accounts@,
                InstructionId::ExecuteSol,
                amount,
                data@,
                signature@,
                recovery_id,
                message_hash@,
                nonce,
            ) == Some(error),
        },
        *final(pda) == after_nonce_check(*old(pda), nonce),
{
    let instruction_data = (CallableInstruction::OnCall { amount, sender, data: data.clone() }).pack();
    handle_sol_common(
        pda,
        ctx,
        remaining_accounts,
        amount,
        data,
        signature,
        recovery_id,
        message_hash,
        nonce,
        InstructionId::ExecuteSol,
        instruction_data,
    )
}

/// Sends `amount` to the connected program's account and calls the program's `on_revert`
/// with the amount, the sender on this ledger and the data.
pub fn handle_sol_revert(
    pda: &mut Pda,
    ctx: &Execute,
    remaining_accounts: &[AccountInfo],
    amount: u64,
    sender: Pubkey,
    data: Vec<u8>,
    signature: [u8; 64],
    recovery_id: u8,
    message_hash: [u8; 32],
    nonce: u64,
) -> (executed: Result<Execution, Errors>)
    requires
        nonce == old(pda).nonce ==> nonce < u64::MAX,
    ensures
        match executed {
            Ok(execution) => execute_refusal(
                *old(pda),
                *ctx,
                remaining_accounts@,
                InstructionId::ExecuteSolRevert,
                amount,
                data@,
                signature@,
                recovery_id,
                message_hash@,
                nonce,
            ) is None && is_execution(
                execution,
                *ctx,
                remaining_accounts@,
                amount,
                (CallableInstructionView::OnRevert {
                    amount,
                    sender: sender@,
                    data: data@,
                }).packed(),
            ),
            Err(error) => execute_refusal(
                *old(pda),
                *ctx,
                remaining_accounts@,
                InstructionId::ExecuteSolRevert,
                amount,
                data@,
                signature@,
                recovery_id,
                message_hash@,
                nonce,
            ) == Some(error),
        },
        *final(pda) == after_nonce_check(*old(pda), nonce),
{
    let instruction_data = (CallableInstruction::OnRevert {
        amount,
        sender,
        data: data.clone(),
    }).pack();
    handle_sol_common(
        pda,
        ctx,
        remaining_accounts,
        amount,
        data,
        signature,
        recovery_id,
        message_hash,
        nonce,
        InstructionId::ExecuteSolRevert,
        instruction_data,
    )
}

/// The authentication of a relayed call with tokens: the trusted signer must have signed the
/// kind, the amount, the mint, the receiving token account, the sender and the data under the
/// expected nonce.
pub open spec fn token_execute_authentication(
    pda: Pda,
    instruction_id: InstructionId,
    ctx: ExecuteSPLToken,
    amount: u64,
    sender: Seq<u8>,
    data: Seq<u8>,
    signature: Seq<u8>,
    recovery_id: u8,
    message_hash: Seq<u8>,
    nonce: u64,
) -> Result<(), Errors> {
    message_outcome(
        pda,
        instruction_id,
        nonce,
        Some(amount),
        seq![ctx.mint_account@, ctx.destination_program_pda_ata@, sender, data],
        message_hash,
        signature,
        recovery_id,
    )
}

/// The reason for which a relayed call with tokens is refused, if it is: a failed
/// authentication, then an account list that names the relaying signer, then a token account
/// of the gateway or of the connected program that is not the associated one.
pub open spec fn token_execute_refusal(
    pda: Pda,
    ctx: ExecuteSPLToken,
    remaining_accounts: Seq<AccountInfo>,
    instruction_id: InstructionId,
    amount: u64,
    sender: Seq<u8>,
    data: Seq<u8>,
    signature: Seq<u8>,
    recovery_id: u8,
    message_hash: Seq<u8>,
    nonce: u64,
) -> Option<Errors> {
    let relay = relay_refusal(
        token_execute_authentication(
            pda,
            instruction_id,
            ctx,
            amount,
            sender,
            data,
            signature,
            recovery_id,
            message_hash,
            nonce,
        ),
        remaining_accounts,
        ctx.signer,
    );
    if relay is Some {
        relay
    } else if !is_ata(ctx.pda@, ctx.mint_account@, ctx.pda_ata@) || !is_ata(
        ctx.destination_program_pda@,
        ctx.mint_account@,
        ctx.destination_program_pda_ata@,
    ) {
        Some(Errors::SPLAtaAndMintAddressMismatch)
    } else {
        None
    }
}

/// Whether `execution` is what a relayed call of `ctx` with `amount` tokens of `decimals`
/// decimals and the payload `instruction_data` asks of the ledger.
pub open spec fn is_token_execution(
    execution: TokenExecution,
    ctx: ExecuteSPLToken,
    remaining_accounts: Seq<AccountInfo>,
    decimals: u8,
    amount: u64,
    instruction_data: Seq<u8>,
) -> bool {
    &&& execution.transfer == TokenTransferChecked {
        from: ctx.pda_ata,
        mint: ctx.mint_account,
        to: ctx.destination_program_pda_ata,
        authority: ctx.pda,
        amount,
        decimals,
    }
    &&& execution.instruction.program_id == ctx.destination_program
    &&& execution.instruction.accounts@ == relayed_metas(remaining_accounts, ctx.pda)
    &&& execution.instruction.data@ == instruction_data
}

/// Authenticates a relayed call with tokens and prepares what it asks of the ledger.
fn handle_spl_token_common(
    pda: &mut Pda,
    ctx: &ExecuteSPLToken,
    remaining_accounts: &[AccountInfo],
    decimals: u8,
    amount: u64,
    data: Vec<u8>,
    signature: [u8; 64],
    recovery_id: u8,
    message_hash: [u8; 32],
    nonce: u64,
    sender: &[u8],
    instruction_id: InstructionId,
    instruction_data: Vec<u8>,
) -> (executed: Result<TokenExecution, Errors>)
    requires
        nonce == old(pda).nonce ==> nonce < u64::MAX,
    ensures
        match executed {
            Ok(execution) => token_execute_refusal(
                *old(pda),
                *ctx,
                remaining_accounts@,
                instruction_id,
                amount,
                sender@,
                data@,
                signature@,
                recovery_id,
                message_hash@,
                nonce,
            ) is None && is_token_execution(
                execution,
                *ctx,
                remaining_accounts@,
                decimals,
                amount,
                instruction_data@,
            ),
            Err(error) => token_execute_refusal(
                *old(pda),
                *ctx,
                remaining_accounts@,
                instruction_id,
                amount,
                sender@,
                data@,
                signature@,
                recovery_id,
                message_hash@,
                nonce,
            ) == Some(error),
        },
        *final(pda) == after_nonce_check(*old(pda), nonce),
{
    let additional_data: [&[u8]; 4] = [
        &ctx.mint_account,
        &ctx.destination_program_pda_ata,
        sender,
        data.as_slice(),
    ];
    assert(slices_view(additional_data@) =~= seq![
        ctx.mint_account@,
        ctx.destination_program_pda_ata@,
        sender@,
        data@,
    ]);
    match validate_message(
        pda,
        instruction_id,
        nonce,
        amount,
        &additional_data,
        &message_hash,
        &signature,
        recovery_id,
    ) {
        Ok(()) => {},
        Err(error) => {
            return Err(error);
        },
    }
    let account_metas = match prepare_account_metas(remaining_accounts, &ctx.signer, &ctx.pda) {
        Ok(account_metas) => account_metas,
        Err(error) => {
            return Err(error);
        },
    };
    match verify_ata_match(&ctx.pda, &ctx.mint_account, &ctx.pda_ata) {
        Ok(()) => {},
        Err(error) => {
            return Err(error);
        },
    }
    match verify_ata_match(
        &ctx.destination_program_pda,
        &ctx.mint_account,
        &ctx.destination_program_pda_ata,
    ) {
        Ok(()) => {},
        Err(error) => {
            return Err(error);
        },
    }
    Ok(
        TokenExecution {
            transfer: TokenTransferChecked {
                from: ctx.pda_ata,
                mint: ctx.mint_account,
                to: ctx.destination_program_pda_ata,
                authority: ctx.pda,
                amount,
                decimals,
            },
            instruction: Instruction {
                program_id: ctx.destination_program,
                accounts: account_metas,
                data: instruction_data,
            },
        },
    )
}

/// Sends `amount` tokens to the connected program's token account and calls the program's
/// `on_call` with the amount, the remote sender and the data.
pub fn handle_spl_token(
    pda: &mut Pda,
    ctx: &ExecuteSPLToken,
    remaining_accounts: &[AccountInfo],
    decimals: u8,
    amount: u64,
    sender: [u8; 20],
    data: Vec<u8>,
    signature: [u8; 64],
    recovery_id: u8,
    message_hash: [u8; 32],
    nonce: u64,
) -> (executed: Result<TokenExecution, Errors>)
    requires
        nonce == old(pda).nonce ==> nonce < u64::MAX,
    ensures
        match executed {
            Ok(execution) => token_execute_refusal(
                *old(pda),
                *ctx,
                remaining_accounts@,
                InstructionId::ExecuteSplToken,
                amount,
                sender@,
                data@,
                signature@,
                recovery_id,
                message_hash@,
                nonce,
            ) is None && is_token_execution(
                execution,
                *ctx,
                remaining_accounts@,
                decimals,
                amount,
                (CallableInstructionView::OnCall { amount, sender: sender@, data: data@ }).packed(),
            ),
            Err(error) => token_execute_refusal(
                *old(pda),
                *ctx,
                remaining_accounts@,
                InstructionId::ExecuteSplToken,
                amount,
                sender@,
                data@,
                signature@,
                recovery_id,
                message_hash@,
                nonce,
            ) == Some(error),
        },
        *final(pda) == after_nonce_check(*old(pda), nonce),
{
    let instruction_data = (CallableInstruction::OnCall { amount, sender, data: data.clone() }).pack();
    handle_spl_token_common(
        pda,
        ctx,
        remaining_accounts,
        decimals,
        amount,
        data,
        signature,
        recovery_id,
        message_hash,
        nonce,
        &sender,
        InstructionId::ExecuteSplToken,
        instruction_data,
    )
}

/// Sends `amount` tokens to the connected program's token account and calls the program's
/// `on_revert` with the amount, the sender on this ledger and the data.
pub fn handle_spl_token_revert(
    pda: &mut Pda,
    ctx: &ExecuteSPLToken,
    remaining_accounts: &[AccountInfo],
    decimals: u8,
    amount: u64,
    sender: Pubkey,
    data: Vec<u8>,
    signature: [u8; 64],
    recovery_id: u8,
    message_hash: [u8; 32],
    nonce: u64,
) -> (executed: Result<TokenExecution, Errors>)
    requires
        nonce == old(pda).nonce ==> nonce < u64::MAX,
    ensures
        match executed {
            Ok(execution) => token_execute_refusal(
                *old(pda),
                *ctx,
                remaining_accounts@,
                InstructionId::ExecuteSplTokenRevert,
                amount,
                sender@,
                data@,
                signature@,
                recovery_id,
                message_hash@,
                nonce,
            ) is None && is_token_execution(
                execution,
                *ctx,
                remaining_accounts@,
                decimals,
                amount,
                (CallableInstructionView::OnRevert {
                    amount,
                    sender: sender@,
                    data: data@,
                }).packed(),
            ),
            Err(error) => token_execute_refusal(
                *old(pda),
                *ctx,
                remaining_accounts@,
                InstructionId::ExecuteSplTokenRevert,
                amount,
                sender@,
                data@,
                signature@,
                recovery_id,
                message_hash@,
                nonce,
            ) == Some(error),
        },
        *final(pda) == after_nonce_check(*old(pda), nonce),
{
    let instruction_data = (CallableInstruction::OnRevert {
        amount,
        sender,
        data: data.clone(),
    }).pack();
    handle_spl_token_common(
        pda,
        ctx,
        remaining_accounts,
        decimals,
        amount,
        data,
        signature,
        recovery_id,
        message_hash,
        nonce,
        &sender,
        InstructionId::ExecuteSplTokenRevert,
        instruction_data,
    )
}

} // verus!
