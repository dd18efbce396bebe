//! The gateway's instruction set, under the names by which clients call it.

pub use crate::instructions::admin::{
    initialize, reset_nonce, set_deposit_paused, unwhitelist_spl_mint, update_authority, update_tss,
    whitelist_spl_mint,
};
pub use crate::instructions::execute::increment_nonce;

use vstd::prelude::*;
use crate::accounts::{AccountInfo, LamportTransfer, TokenTransfer};
use crate::bytes::all_zero;
use crate::constants::DEPOSIT_FEE;
use crate::contexts::{Call, Deposit, DepositSplToken, Execute, ExecuteSPLToken, Withdraw, WithdrawSPLToken};
use crate::errors::Errors;
use crate::instructions::deposit::{
    and_then, call_outcome, deposit_outcome, payload_outcome, token_deposit_outcome, TokenDeposit,
};
use crate::crypto::keccak256;
use crate::instructions::execute::{
    execute_message, execute_refusal, is_execution, is_token_execution, token_execute_refusal,
    Execution, TokenExecution,
};
use crate::instructions::withdraw::{is_authenticated_token_withdrawal, recipient_ata_missing};
use crate::accounts::CreateAssociatedTokenAccount;
use crate::utils::recover_and_verify_eth_address::recovered_address;
use crate::instructions::withdraw::{
    token_withdraw_outcome, token_withdrawal, withdraw_outcome, TokenWithdrawal,
};
use crate::state::{CallableInstructionView, InstructionId, Pda, Pubkey, RevertOptions};
use crate::utils::verify_and_update_nonce::after_nonce_check;

verus! {

/// Sends `amount` to the connected program's account and calls its `on_call`.
///
/// The call is relayed if and only if the nonce is the expected one, `message_hash` is the
/// hash of the canonical bytes of kind `ExecuteSol` over amount, connected program and data,
/// the signature over it is the trusted signer's, and the account list does not name the
/// relaying signer. The nonce is consumed as soon as it was the expected one.
pub fn execute(
    pda: &mut Pda,
    ctx: &Execute,
    remaining_accounts: &[AccountInfo],
    amount: u64,
    sender: [u8; 20],
    data: Vec<u8>,
    signature: [u8; 64],
    recovery_id: u8,
    message_hash: [u8; 32],
    nonce: u64,
) -> (executed: Result<Execution, Errors>)
    requires
        nonce == old(pda).nonce ==> nonce < u64::MAX,
    ensures
        match executed {
            Ok(execution) => execute_refusal(
                *old(pda),
                *ctx,
                remaining_accounts@,
                InstructionId::ExecuteSol,
                amount,
                data@,
                signature@,
                recovery_id,
                message_hash@,
                nonce,
            ) is None && is_execution(
                execution,
                *ctx,
                remaining_accounts@,
                amount,
                (CallableInstructionView::OnCall { amount, sender: sender@, data: data@ }).packed(),
            ),
            Err(error) => execute_refusal(
                *old(pda),
                *ctx,
                remaining_accounts@,
                InstructionId::ExecuteSol,
                amount,
                data@,
                signature@,
                recovery_id,
                message_hash@,
                nonce,
            ) == Some(error),
        },
        *final(pda) == after_nonce_check(*old(pda), nonce),
        executed is Ok ==> final(pda).nonce == old(pda).nonce + 1,
        nonce != old(pda).nonce ==> executed == Err::<Execution, Errors>(Errors::NonceMismatch),
        nonce == old(pda).nonce && message_hash@ != keccak256(
            execute_message(
                *old(pda),
                InstructionId::ExecuteSol,
                ctx.destination_program,
                nonce,
                amount,
                data@,
            ),
        ) ==> executed == Err::<Execution, Errors>(Errors::MessageHashMismatch),
        nonce == old(pda).nonce && message_hash@ == keccak256(
            execute_message(
                *old(pda),
                InstructionId::ExecuteSol,
                ctx.destination_program,
                nonce,
                amount,
                data@,
            ),
        ) && recovered_address(message_hash@, recovery_id, signature@) is Some
            && recovered_address(message_hash@, recovery_id, signature@) != Some(
            old(pda).tss_address@,
        ) ==> executed == Err::<Execution, Errors>(Errors::TSSAuthenticationFailed),
{
    crate::instructions::execute::handle_sol(
        pda,
        ctx,
        remaining_accounts,
        amount,
        sender,
        data,
        signature,
        recovery_id,
        message_hash,
        nonce,
    )
}

/// Sends `amount` to the connected program's account and calls its `on_revert`: the return
/// of a call that failed on the remote chain. The kind signed is `ExecuteSolRevert`, so that
/// no signature for a forward call relays a revert, nor the other way round.
pub fn execute_revert(
    pda: &mut Pda,
    ctx: &Execute,
    remaining_accounts: &[AccountInfo],
    amount: u64,
    sender: Pubkey,
    data: Vec<u8>,
    signature: [u8; 64],
    recovery_id: u8,
    message_hash: [u8; 32],
    nonce: u64,
) -> (executed: Result<Execution, Errors>)
    requires
        nonce == old(pda).nonce ==> nonce < u64::MAX,
    ensures
        match executed {
            Ok(execution) => execute_refusal(
                *old(pda),
                *ctx,
                remaining_accounts@,
                InstructionId::ExecuteSolRevert,
                amount,
                data@,
                signature@,
                recovery_id,
                message_hash@,
                nonce,
            ) is None && is_execution(
                execution,
                *ctx,
                remaining_accounts@,
                amount,
                (CallableInstructionView::OnRevert {
                    amount,
                    sender: sender@,
                    data: data@,
                }).packed(),
            ),
            Err(error) => execute_refusal(
                *old(pda),
                *ctx,
                remaining_accounts@,
                InstructionId::ExecuteSolRevert,
                amount,
                data@,
                signature@,
                recovery_id,
                message_hash@,
                nonce,
            ) == Some(error),
        },
        *final(pda) == after_nonce_check(*old(pda), nonce),
        executed is Ok ==> final(pda).nonce == old(pda).nonce + 1,
        nonce != old(pda).nonce ==> executed == Err::<Execution, Errors>(Errors::NonceMismatch),
        nonce == old(pda).nonce && message_hash@ != keccak256(
            execute_message(
                *old(pda),
                InstructionId::ExecuteSolRevert,
                ctx.destination_program,
                nonce,
                amount,
                data@,
            ),
        ) ==> executed == Err::<Execution, Errors>(Errors::MessageHashMismatch),
{
    crate::instructions::execute::handle_sol_revert(
        pda,
        ctx,
        remaining_accounts,
        amount,
        sender,
        data,
        signature,
        recovery_id,
        message_hash,
        nonce,
    )
}

/// Sends `amount` tokens to the connected program's token account and calls its `on_call`.
pub fn execute_spl_token(
    pda: &mut Pda,
    ctx: &ExecuteSPLToken,
    remaining_accounts: &[AccountInfo],
    decimals: u8,
    amount: u64,
    sender: [u8; 20],
    data: Vec<u8>,
    signature: [u8; 64],
    recovery_id: u8,
    message_hash: [u8; 32],
    nonce: u64,
) -> (executed: Result<TokenExecution, Errors>)
    requires
        nonce == old(pda).nonce ==> nonce < u64::MAX,
    ensures
        match executed {
            Ok(execution) => token_execute_refusal(
                *old(pda),
                *ctx,
                remaining_accounts@,
                InstructionId::ExecuteSplToken,
                amount,
                sender@,
                data@,
                signature@,
                recovery_id,
                message_hash@,
                nonce,
            ) is None && is_token_execution(
                execution,
                *ctx,
                remaining_accounts@,
                decimals,
                amount,
                (CallableInstructionView::OnCall { amount, sender: sender@, data: data@ }).packed(),
            ),
            Err(error) => token_execute_refusal(
                *old(pda),
                *ctx,
                remaining_accounts@,
                InstructionId::ExecuteSplToken,
                amount,
                sender@,
                data@,
                signature@,
                recovery_id,
                message_hash@,
                nonce,
            ) == Some(error),
        },
        *final(pda) == after_nonce_check(*old(pda), nonce),
{
    crate::instructions::execute::handle_spl_token(
        pda,
        ctx,
        remaining_accounts,
        decimals,
        amount,
        sender,
        data,
        signature,
        recovery_id,
        message_hash,
        nonce,
    )
}

/// Sends `amount` tokens to the connected program's token account and calls its `on_revert`.
pub fn execute_spl_token_revert(
    pda: &mut Pda,
    ctx: &ExecuteSPLToken,
    remaining_accounts: &[AccountInfo],
    decimals: u8,
    amount: u64,
    sender: Pubkey,
    data: Vec<u8>,
    signature: [u8; 64],
    recovery_id: u8,
    message_hash: [u8; 32],
    nonce: u64,
) -> (executed: Result<TokenExecution, Errors>)
    requires
        nonce == old(pda).nonce ==> nonce < u64::MAX,
    ensures
        match executed {
            Ok(execution) => token_execute_refusal(
                *old(pda),
                *ctx,
                remaining_accounts@,
                InstructionId::ExecuteSplTokenRevert,
                amount,
                sender@,
                data@,
                signature@,
                recovery_id,
                message_hash@,
                nonce,
            ) is None && is_token_execution(
                execution,
                *ctx,
                remaining_accounts@,
                decimals,
                amount,
                (CallableInstructionView::OnRevert {
                    amount,
                    sender: sender@,
                    data: data@,
                }).packed(),
            ),
            Err(error) => token_execute_refusal(
                *old(pda),
                *ctx,
                remaining_accounts@,
                InstructionId::ExecuteSplTokenRevert,
                amount,
                sender@,
                data@,
                signature@,
                recovery_id,
                message_hash@,
                nonce,
            ) == Some(error),
        },
        *final(pda) == after_nonce_check(*old(pda), nonce),
{
    crate::instructions::execute::handle_spl_token_revert(
        pda,
        ctx,
        remaining_accounts,
        decimals,
        amount,
        sender,
        data,
        signature,
        recovery_id,
        message_hash,
        nonce,
    )
}

/// Deposits `amount` of native value for `receiver` on the remote chain. The depositor pays
/// `amount` and `DEPOSIT_FEE` to the gateway.
///
/// A paused gateway refuses every deposit; an open one refuses the all-zero receiver.
pub fn deposit(
    pda: &Pda,
    ctx: &Deposit,
    amount: u64,
    receiver: [u8; 20],
    revert_options: &Option<RevertOptions>,
) -> (deposited: Result<LamportTransfer, Errors>)
    requires
        deposit_outcome(*pda, receiver@) is Ok ==> amount + DEPOSIT_FEE <= u64::MAX,
    ensures
        match deposited {
            Ok(transfer) => deposit_outcome(*pda, receiver@) is Ok && transfer == (LamportTransfer {
                from: ctx.signer,
                to: ctx.pda,
                lamports: (amount + DEPOSIT_FEE) as u64,
            }),
            Err(error) => deposit_outcome(*pda, receiver@) == Err::<(), Errors>(error),
        },
        pda.deposit_paused ==> deposited == Err::<LamportTransfer, Errors>(Errors::DepositPaused),
        !pda.deposit_paused && all_zero(receiver@) ==> deposited == Err::<LamportTransfer, Errors>(
            Errors::EmptyReceiver,
        ),
{
    crate::instructions::deposit::handle_sol(pda, ctx, amount, receiver, revert_options, DEPOSIT_FEE)
}

/// Deposits `amount` of native value and calls `receiver` on the remote chain with
/// `message`. Message and revert message together must fit the payload limit.
pub fn deposit_and_call(
    pda: &Pda,
    ctx: &Deposit,
    amount: u64,
    receiver: [u8; 20],
    message: &Vec<u8>,
    revert_options: &Option<RevertOptions>,
) -> (deposited: Result<LamportTransfer, Errors>)
    requires
        deposit_outcome(*pda, receiver@) is Ok ==> amount + DEPOSIT_FEE <= u64::MAX,
    ensures
        match deposited {
            Ok(transfer) => and_then(
                deposit_outcome(*pda, receiver@),
                payload_outcome(message@, *revert_options),
            ) is Ok && transfer == (LamportTransfer {
                from: ctx.signer,
                to: ctx.pda,
                lamports: (amount + DEPOSIT_FEE) as u64,
            }),
            Err(error) => and_then(
                deposit_outcome(*pda, receiver@),
                payload_outcome(message@, *revert_options),
            ) == Err::<(), Errors>(error),
        },
        pda.deposit_paused ==> deposited == Err::<LamportTransfer, Errors>(Errors::DepositPaused),
        !pda.deposit_paused && all_zero(receiver@) ==> deposited == Err::<LamportTransfer, Errors>(
            Errors::EmptyReceiver,
        ),
{
    crate::instructions::deposit::handle_sol_with_call(
        pda,
        ctx,
        amount,
        receiver,
        message,
        revert_options,
        DEPOSIT_FEE,
    )
}

/// Deposits `amount` tokens for `receiver` on the remote chain. The depositor pays
/// `DEPOSIT_FEE` to the gateway, and the tokens go to the gateway's token account.
pub fn deposit_spl_token(
    pda: &Pda,
    ctx: &DepositSplToken,
    amount: u64,
    receiver: [u8; 20],
    revert_options: &Option<RevertOptions>,
) -> (deposited: Result<TokenDeposit, Errors>)
    ensures
        match deposited {
            Ok(deposit) => token_deposit_outcome(*pda, *ctx, receiver@) is Ok && deposit == (
            TokenDeposit {
                fee: LamportTransfer { from: ctx.signer, to: ctx.pda, lamports: DEPOSIT_FEE },
                tokens: TokenTransfer {
                    from: ctx.from,
                    to: ctx.to,
                    authority: ctx.signer,
                    amount,
                },
            }),
            Err(error) => token_deposit_outcome(*pda, *ctx, receiver@) == Err::<(), Errors>(error),
        },
{
    crate::instructions::deposit::handle_spl(pda, ctx, amount, receiver, revert_options, DEPOSIT_FEE)
}

/// Deposits `amount` tokens and calls `receiver` on the remote chain with `message`.
pub fn deposit_spl_token_and_call(
    pda: &Pda,
    ctx: &DepositSplToken,
    amount: u64,
    receiver: [u8; 20],
    message: &Vec<u8>,
    revert_options: &Option<RevertOptions>,
) -> (deposited: Result<TokenDeposit, Errors>)
    ensures
        match deposited {
            Ok(deposit) => and_then(
                token_deposit_outcome(*pda, *ctx, receiver@),
                payload_outcome(message@, *revert_options),
            ) is Ok && deposit == (TokenDeposit {
                fee: LamportTransfer { from: ctx.signer, to: ctx.pda, lamports: DEPOSIT_FEE },
                tokens: TokenTransfer {
                    from: ctx.from,
                    to: ctx.to,
                    authority: ctx.signer,
                    amount,
                },
            }),
            Err(error) => and_then(
                token_deposit_outcome(*pda, *ctx, receiver@),
                payload_outcome(message@, *revert_options),
            ) == Err::<(), Errors>(error),
        },
{
    crate::instructions::deposit::handle_spl_with_call(
        pda,
        ctx,
        amount,
        receiver,
        message,
        revert_options,
        DEPOSIT_FEE,
    )
}

/// Calls `receiver` on the remote chain with `message`; no value moves.
pub fn call(ctx: &Call, receiver: [u8; 20], message: &Vec<u8>, revert_options: &Option<RevertOptions>) -> (called:
    Result<(), Errors>)
    ensures
        called == call_outcome(receiver@, message@, *revert_options),
{
    crate::instructions::deposit::handle_call(receiver, message, revert_options)
}

/// Withdraws `amount` of native value to the recipient, on the trusted signer's word.
pub fn withdraw(
    pda: &mut Pda,
    ctx: &Withdraw,
    amount: u64,
    signature: [u8; 64],
    recovery_id: u8,
    message_hash: [u8; 32],
    nonce: u64,
) -> (withdrawn: Result<LamportTransfer, Errors>)
    requires
        nonce == old(pda).nonce ==> nonce < u64::MAX,
    ensures
        match withdrawn {
            Ok(transfer) => withdraw_outcome(
                *old(pda),
                *ctx,
                amount,
                signature@,
                recovery_id,
                message_hash@,
                nonce,
            ) is Ok && transfer == (LamportTransfer {
                from: ctx.pda,
                to: ctx.recipient,
                lamports: amount,
            }),
            Err(error) => withdraw_outcome(
                *old(pda),
                *ctx,
                amount,
                signature@,
                recovery_id,
                message_hash@,
                nonce,
            ) == Err::<(), Errors>(error),
        },
        *final(pda) == after_nonce_check(*old(pda), nonce),
{
    crate::instructions::withdraw::handle_sol(
        pda,
        ctx,
        amount,
        signature,
        recovery_id,
        message_hash,
        nonce,
    )
}

/// Withdraws `amount` tokens to the recipient's token account, on the trusted signer's word.
pub fn withdraw_spl_token(
    pda: &mut Pda,
    ctx: &WithdrawSPLToken,
    decimals: u8,
    amount: u64,
    signature: [u8; 64],
    recovery_id: u8,
    message_hash: [u8; 32],
    nonce: u64,
) -> (withdrawn: Result<TokenWithdrawal, Errors>)
    requires
        nonce == old(pda).nonce ==> nonce < u64::MAX,
    ensures
        match withdrawn {
            Ok(withdrawal) => token_withdraw_outcome(
                *old(pda),
                *ctx,
                amount,
                signature@,
                recovery_id,
                message_hash@,
                nonce,
            ) is Ok && withdrawal == token_withdrawal(*ctx, decimals, amount),
            Err(error) => token_withdraw_outcome(
                *old(pda),
                *ctx,
                amount,
                signature@,
                recovery_id,
                message_hash@,
                nonce,
            ) == Err::<(), Errors>(error),
        },
        *final(pda) == after_nonce_check(*old(pda), nonce),
        withdrawn is Ok ==> final(pda).nonce == old(pda).nonce + 1,
        nonce != old(pda).nonce ==> withdrawn == Err::<TokenWithdrawal, Errors>(
            Errors::NonceMismatch,
        ),
        is_authenticated_token_withdrawal(
            *old(pda),
            *ctx,
            amount,
            signature@,
            recovery_id,
            message_hash@,
            nonce,
        ) ==> withdrawn is Ok,
        withdrawn matches Ok(withdrawal) ==> (recipient_ata_missing(*ctx)
            <==> withdrawal.create_recipient_ata == Some(
            CreateAssociatedTokenAccount {
                payer: ctx.signer,
                wallet: ctx.recipient,
                mint: ctx.mint_account,
                token_program: ctx.token_program,
            },
        )) && (!recipient_ata_missing(*ctx) <==> withdrawal.create_recipient_ata is None),
{
    crate::instructions::withdraw::handle_spl(
        pda,
        ctx,
        decimals,
        amount,
        signature,
        recovery_id,
        message_hash,
        nonce,
    )
}

} // verus!
