//! Withdrawals to a recipient on this ledger, on the trusted signer's word.

use vstd::prelude::*;
use crate::accounts::{
    CreateAssociatedTokenAccount, LamportTransfer, LedgerAction, TokenTransferChecked,
};
use crate::bytes::array_eq;
use crate::constants::DEFAULT_GAS_COST;
use crate::contexts::{Withdraw, WithdrawSPLToken};
use crate::crypto::{keccak256, slices_view};
use crate::errors::Errors;
use crate::state::{InstructionId, Pda};
use crate::utils::recover_and_verify_eth_address::recovered_address;
use crate::utils::validate_message::{message_outcome, validate_message};
use crate::utils::validate_message_hash::message_bytes;
use crate::utils::verify_and_update_nonce::after_nonce_check;
use crate::utils::verify_ata_match::{is_ata, verify_ata_match};

verus! {

/// What a withdrawal of tokens asks of the ledger: the recipient's token account is created
/// first where it does not exist; `settle` then hands out, in order, the refund of the fee
/// payer, which needs the measured cost of the creation, and the transfer of the tokens.
#[derive(Clone, Copy, Debug, PartialEq, Eq)]
pub struct TokenWithdrawal {
    pub create_recipient_ata: Option<CreateAssociatedTokenAccount>,
    pub transfer: TokenTransferChecked,
}

/// What a withdrawal of native value answers: the trusted signer must have signed the kind
/// `Withdraw`, the amount and the recipient under the expected nonce.
pub open spec fn withdraw_outcome(
    pda: Pda,
    ctx: Withdraw,
    amount: u64,
    signature: Seq<u8>,
    recovery_id: u8,
    message_hash: Seq<u8>,
    nonce: u64,
) -> Result<(), Errors> {
    message_outcome(
        pda,
        InstructionId::Withdraw,
        nonce,
        Some(amount),
        seq![ctx.recipient@],
        message_hash,
        signature,
        recovery_id,
    )
}

/// Withdraws native value: `amount` moves from the gateway to the recipient.
pub fn handle_sol(
    pda: &mut Pda,
    ctx: &Withdraw,
    amount: u64,
    signature: [u8; 64],
    recovery_id: u8,
    message_hash: [u8; 32],
    nonce: u64,
) -> (withdrawn: Result<LamportTransfer, Errors>)
    requires
        nonce == old(pda).nonce ==> nonce < u64::MAX,
    ensures
        match withdrawn {
            Ok(transfer) => withdraw_outcome(
                *old(pda),
                *ctx,
                amount,
                signature@,
                recovery_id,
                message_hash@,
                nonce,
            ) is Ok && transfer == (LamportTransfer {
                from: ctx.pda,
                to: ctx.recipient,
                lamports: amount,
            }),
            Err(error) => withdraw_outcome(
                *old(pda),
                *ctx,
                amount,
                signature@,
                recovery_id,
                message_hash@,
                nonce,
            ) == Err::<(), Errors>(error),
        },
        *final(pda) == after_nonce_check(*old(pda), nonce),
{
    let additional_data: [&[u8]; 1] = [&ctx.recipient];
    assert(slices_view(additional_data@) =~= seq![ctx.recipient@]);
    match validate_message(
        pda,
        InstructionId::Withdraw,
        nonce,
        amount,
        &additional_data,
        &message_hash,
        &signature,
        recovery_id,
    ) {
        Ok(()) => Ok(LamportTransfer { from: ctx.pda, to: ctx.recipient, lamports: amount }),
        Err(error) => Err(error),
    }
}

/// What a withdrawal of tokens answers: the trusted signer must have signed the kind
/// `WithdrawSplToken`, the amount, the mint and the recipient's token account under the
/// expected nonce; then the gateway's and the recipient's token accounts must be the
/// associated ones.
pub open spec fn token_withdraw_outcome(
    pda: Pda,
    ctx: WithdrawSPLToken,
    amount: u64,
    signature: Seq<u8>,
    recovery_id: u8,
    message_hash: Seq<u8>,
    nonce: u64,
) -> Result<(), Errors> {
    let authentication = message_outcome(
        pda,
        InstructionId::WithdrawSplToken,
        nonce,
        Some(amount),
        seq![ctx.mint_account@, ctx.recipient_ata@],
        message_hash,
        signature,
        recovery_id,
    );
    if authentication is Err {
        authentication
    } else if !is_ata(ctx.pda@, ctx.mint_account@, ctx.pda_ata@) || !is_ata(
        ctx.recipient@,
        ctx.mint_account@,
        ctx.recipient_ata@,
    ) {
        Err(Errors::SPLAtaAndMintAddressMismatch)
    } else {
        Ok(())
    }
}

/// Whether a withdrawal of tokens is authentic and names the right token accounts: it carries
/// the expected nonce, the hash of its own canonical bytes and the trusted signer's signature
/// over that hash, and the gateway's and the recipient's token accounts are the associated
/// ones.
pub open spec fn is_authenticated_token_withdrawal(
    pda: Pda,
    ctx: WithdrawSPLToken,
    amount: u64,
    signature: Seq<u8>,
    recovery_id: u8,
    message_hash: Seq<u8>,
    nonce: u64,
) -> bool {
    &&& nonce == pda.nonce
    &&& message_hash == keccak256(
        message_bytes(
            InstructionId::WithdrawSplToken,
            pda.chain_id,
            nonce,
            Some(amount),
            seq![ctx.mint_account@, ctx.recipient_ata@],
        ),
    )
    &&& recovered_address(message_hash, recovery_id, signature) == Some(pda.tss_address@)
    &&& is_ata(ctx.pda@, ctx.mint_account@, ctx.pda_ata@)
    &&& is_ata(ctx.recipient@, ctx.mint_account@, ctx.recipient_ata@)
}

/// Whether the recipient's token account is yet to be created: it holds no native value, or
/// it is still owned by the system program.
pub open spec fn recipient_ata_missing(ctx: WithdrawSPLToken) -> bool {
    ctx.recipient_ata_lamports == 0 || ctx.recipient_ata_owner == ctx.system_program
}

/// What an accepted withdrawal of `amount` tokens with `decimals` decimals asks of the
/// ledger.
pub open spec fn token_withdrawal(ctx: WithdrawSPLToken, decimals: u8, amount: u64) -> TokenWithdrawal {
    TokenWithdrawal {
        create_recipient_ata: if recipient_ata_missing(ctx) {
            Some(
                CreateAssociatedTokenAccount {
                    payer: ctx.signer,
                    wallet: ctx.recipient,
                    mint: ctx.mint_account,
                    token_program: ctx.token_program,
                },
            )
        } else {
            None
        },
        transfer: TokenTransferChecked {
            from: ctx.pda_ata,
            mint: ctx.mint_account,
            to: ctx.recipient_ata,
            authority: ctx.pda,
            amount,
            decimals,
        },
    }
}

/// Withdraws tokens: `amount` moves from the gateway's token account to the recipient's,
/// which is created on the way where it does not exist.
pub fn handle_spl(
    pda: &mut Pda,
    ctx: &WithdrawSPLToken,
    decimals: u8,
    amount: u64,
    signature: [u8; 64],
    recovery_id: u8,
    message_hash: [u8; 32],
    nonce: u64,
) -> (withdrawn: Result<TokenWithdrawal, Errors>)
    requires
        nonce == old(pda).nonce ==> nonce < u64::MAX,
    ensures
        match withdrawn {
            Ok(withdrawal) => token_withdraw_outcome(
                *old(pda),
                *ctx,
                amount,
                signature@,
                recovery_id,
                message_hash@,
                nonce,
            ) is Ok && withdrawal == token_withdrawal(*ctx, decimals, amount),
            Err(error) => token_withdraw_outcome(
                *old(pda),
                *ctx,
                amount,
                signature@,
                recovery_id,
                message_hash@,
                nonce,
            ) == Err::<(), Errors>(error),
        },
        *final(pda) == after_nonce_check(*old(pda), nonce),
{
    let additional_data: [&[u8]; 2] = [&ctx.mint_account, &ctx.recipient_ata];
    assert(slices_view(additional_data@) =~= seq![ctx.mint_account@, ctx.recipient_ata@]);
    match validate_message(
        pda,
        InstructionId::WithdrawSplToken,
        nonce,
        amount,
        &additional_data,
        &message_hash,
        &signature,
        recovery_id,
    ) {
        Ok(()) => {},
        Err(error) => {
            return Err(error);
        },
    }
    match verify_ata_match(&ctx.pda, &ctx.mint_account, &ctx.pda_ata) {
        Ok(()) => {},
        Err(error) => {
            return Err(error);
        },
    }
    match verify_ata_match(&ctx.recipient, &ctx.mint_account, &ctx.recipient_ata) {
        Ok(()) => {},
        Err(error) => {
            return Err(error);
        },
    }
    let create_recipient_ata = if ctx.recipient_ata_lamports == 0 || array_eq(
        &ctx.recipient_ata_owner,
        &ctx.system_program,
    ) {
        Some(
            CreateAssociatedTokenAccount {
                payer: ctx.signer,
                wallet: ctx.recipient,
                mint: ctx.mint_account,
                token_program: ctx.token_program,
            },
        )
    } else {
        None
    };
    Ok(
        TokenWithdrawal {
            create_recipient_ata,
            transfer: TokenTransferChecked {
                from: ctx.pda_ata,
                mint: ctx.mint_account,
                to: ctx.recipient_ata,
                authority: ctx.pda,
                amount,
                decimals,
            },
        },
    )
}

/// What the creation of a token account cost its payer: the native balance before, less the
/// balance after. Nothing where no account was created.
pub open spec fn ata_creation_cost(balances: Option<(u64, u64)>) -> int {
    match balances {
        Some((before, after)) => before - after,
        None => 0,
    }
}

/// Pays the fee payer of a token withdrawal back, from the gateway's balance: the fixed
/// `DEFAULT_GAS_COST`, and what the creation of the recipient's token account cost, as
/// measured by the payer's balance before and after it.
pub fn reimbursement(ctx: &WithdrawSPLToken, creation_balances: Option<(u64, u64)>) -> (refund:
    LamportTransfer)
    requires
        0 <= ata_creation_cost(creation_balances) <= u64::MAX - DEFAULT_GAS_COST,
    ensures
        refund == (LamportTransfer {
            from: ctx.pda,
            to: ctx.signer,
            lamports: (DEFAULT_GAS_COST + ata_creation_cost(creation_balances)) as u64,
        }),
        creation_balances is None ==> refund.lamports == DEFAULT_GAS_COST,
        creation_balances matches Some((before, after)) ==> after + refund.lamports == before
            + DEFAULT_GAS_COST,
{
    let cost_ata_create: u64 = match creation_balances {
        Some((bal_before, bal_after)) => bal_before - bal_after,
        None => 0,
    };
    let reimbursement = DEFAULT_GAS_COST + cost_ata_create;
    LamportTransfer { from: ctx.pda, to: ctx.signer, lamports: reimbursement }
}

/// The balances that count for the refund: those measured around the creation of the
/// recipient's token account, and none where the withdrawal asked for no creation.
pub open spec fn counted_balances(withdrawal: TokenWithdrawal, creation_balances: Option<(u64, u64)>) -> Option<
    (u64, u64),
> {
    if withdrawal.create_recipient_ata is Some {
        creation_balances
    } else {
        None
    }
}

/// What the refund of a token withdrawal is, as a value.
pub open spec fn refund_of(ctx: WithdrawSPLToken, balances: Option<(u64, u64)>) -> LamportTransfer {
    LamportTransfer {
        from: ctx.pda,
        to: ctx.signer,
        lamports: (DEFAULT_GAS_COST + ata_creation_cost(balances)) as u64,
    }
}

/// Everything that an accepted withdrawal of tokens asks of the ledger, in order: the
/// recipient's token account is created where it is missing, then the fee payer is paid back,
/// then the tokens move.
pub open spec fn withdrawal_actions(
    withdrawal: TokenWithdrawal,
    ctx: WithdrawSPLToken,
    creation_balances: Option<(u64, u64)>,
) -> Seq<LedgerAction> {
    let creation = match withdrawal.create_recipient_ata {
        Some(create) => seq![LedgerAction::CreateAssociatedTokenAccount(create)],
        None => Seq::empty(),
    };
    creation + seq![
        LedgerAction::TransferLamports(
            refund_of(ctx, counted_balances(withdrawal, creation_balances)),
        ),
        LedgerAction::TransferTokensChecked(withdrawal.transfer),
    ]
}

/// What is left to do of a withdrawal of tokens once the recipient's token account exists:
/// first the refund of the fee payer, then the one transfer of the tokens. `creation_balances`
/// is the fee payer's balance just before and just after the creation, where there was one.
pub fn settle(withdrawal: &TokenWithdrawal, ctx: &WithdrawSPLToken, creation_balances: Option<(u64, u64)>) -> (actions:
    Vec<LedgerAction>)
    requires
        0 <= ata_creation_cost(counted_balances(*withdrawal, creation_balances)) <= u64::MAX
            - DEFAULT_GAS_COST,
    ensures
        actions@ == seq![
            LedgerAction::TransferLamports(
                refund_of(*ctx, counted_balances(*withdrawal, creation_balances)),
            ),
            LedgerAction::TransferTokensChecked(withdrawal.transfer),
        ],
        withdrawal_actions(*withdrawal, *ctx, creation_balances) == (match withdrawal.create_recipient_ata {
            Some(create) => seq![LedgerAction::CreateAssociatedTokenAccount(create)],
            None => Seq::empty(),
        }) + actions@,
{
    let counted = if withdrawal.create_recipient_ata.is_some() {
        creation_balances
    } else {
        None
    };
    let refund = reimbursement(ctx, counted);
    let mut actions: Vec<LedgerAction> = Vec::new();
    actions.push(LedgerAction::TransferLamports(refund));
    actions.push(LedgerAction::TransferTokensChecked(withdrawal.transfer));
    assert(actions@ =~= seq![
        LedgerAction::TransferLamports(
            refund_of(*ctx, counted_balances(*withdrawal, creation_balances)),
        ),
        LedgerAction::TransferTokensChecked(withdrawal.transfer),
    ]);
    actions
}

} // verus!
