//! Deposits towards the remote chain, with or without a message, and plain calls.

use vstd::prelude::*;
use crate::accounts::{LamportTransfer, TokenTransfer};
use crate::bytes::{all_zero, array_eq, is_zero};
use crate::contexts::{Deposit, DepositSplToken};
use crate::errors::Errors;
use crate::state::{Pda, RevertOptions};
use crate::utils::verify_ata_match::{get_associated_token_address, is_ata};
use crate::utils::verify_payload_size::{payload_len, verify_payload_size};
use crate::constants::MAX_DEPOSIT_PAYLOAD_SIZE;

verus! {

/// What a deposit of tokens asks of the ledger: the fee in native value, and the tokens.
#[derive(Clone, Copy, Debug, PartialEq, Eq)]
pub struct TokenDeposit {
    pub fee: LamportTransfer,
    pub tokens: TokenTransfer,
}

/// What is asked of every deposit: deposits are not paused, and the receiver is not the
/// all-zero address. A paused gateway refuses whatever else holds.
pub open spec fn deposit_outcome(pda: Pda, receiver: Seq<u8>) -> Result<(), Errors> {
    if pda.deposit_paused {
        Err(Errors::DepositPaused)
    } else if all_zero(receiver) {
        Err(Errors::EmptyReceiver)
    } else {
        Ok(())
    }
}

/// What is asked of the payload of an operation that carries a message.
pub open spec fn payload_outcome(message: Seq<u8>, revert_options: Option<RevertOptions>) -> Result<
    (),
    Errors,
> {
    if payload_len(Some(message), revert_options) <= MAX_DEPOSIT_PAYLOAD_SIZE {
        Ok(())
    } else {
        Err(Errors::MemoLengthExceeded)
    }
}

/// What is asked of a deposit of tokens beyond `deposit_outcome`: the token is on the
/// allow-list, and the tokens go to the gateway's own associated token account.
pub open spec fn token_deposit_outcome(pda: Pda, ctx: DepositSplToken, receiver: Seq<u8>) -> Result<
    (),
    Errors,
> {
    if deposit_outcome(pda, receiver) is Err {
        deposit_outcome(pda, receiver)
    } else if ctx.whitelist_entry is None {
        Err(Errors::TokenNotWhitelisted)
    } else if !is_ata(ctx.pda@, ctx.mint_account@, ctx.to@) {
        Err(Errors::DepositToAddressMismatch)
    } else {
        Ok(())
    }
}

/// One outcome after another: the first refusal stands.
pub open spec fn and_then(first: Result<(), Errors>, second: Result<(), Errors>) -> Result<(), Errors> {
    if first is Err {
        first
    } else {
        second
    }
}

/// Checks what is asked of every deposit.
pub fn check_deposit(pda: &Pda, receiver: &[u8; 20]) -> (checked: Result<(), Errors>)
    ensures
        checked == deposit_outcome(*pda, receiver@),
{
    if pda.deposit_paused {
        return Err(Errors::DepositPaused);
    }
    if is_zero(receiver) {
        return Err(Errors::EmptyReceiver);
    }
    Ok(())
}

/// Deposits native value for `receiver` on the remote chain: `amount` and the fee move from
/// the depositor to the gateway.
pub fn handle_sol(
    pda: &Pda,
    ctx: &Deposit,
    amount: u64,
    receiver: [u8; 20],
    revert_options: &Option<RevertOptions>,
    deposit_fee: u64,
) -> (deposited: Result<LamportTransfer, Errors>)
    requires
        deposit_outcome(*pda, receiver@) is Ok ==> amount + deposit_fee <= u64::MAX,
    ensures
        match deposited {
            Ok(transfer) => deposit_outcome(*pda, receiver@) is Ok && transfer == (LamportTransfer {
                from: ctx.signer,
                to: ctx.pda,
                lamports: (amount + deposit_fee) as u64,
            }),
            Err(error) => deposit_outcome(*pda, receiver@) == Err::<(), Errors>(error),
        },
        pda.deposit_paused ==> deposited == Err::<LamportTransfer, Errors>(Errors::DepositPaused),
        !pda.deposit_paused && all_zero(receiver@) ==> deposited == Err::<LamportTransfer, Errors>(
            Errors::EmptyReceiver,
        ),
{
    match check_deposit(pda, &receiver) {
        Ok(()) => {},
        Err(error) => {
            return Err(error);
        },
    }
    let amount_with_fees = amount + deposit_fee;
    Ok(LamportTransfer { from: ctx.signer, to: ctx.pda, lamports: amount_with_fees })
}

/// Deposits native value and calls `receiver` on the remote chain with `message`.
pub fn handle_sol_with_call(
    pda: &Pda,
    ctx: &Deposit,
    amount: u64,
    receiver: [u8; 20],
    message: &Vec<u8>,
    revert_options: &Option<RevertOptions>,
    deposit_fee: u64,
) -> (deposited: Result<LamportTransfer, Errors>)
    requires
        deposit_outcome(*pda, receiver@) is Ok ==> amount + deposit_fee <= u64::MAX,
    ensures
        match deposited {
            Ok(transfer) => and_then(
                deposit_outcome(*pda, receiver@),
                payload_outcome(message@, *revert_options),
            ) is Ok && transfer == (LamportTransfer {
                from: ctx.signer,
                to: ctx.pda,
                lamports: (amount + deposit_fee) as u64,
            }),
            Err(error) => and_then(
                deposit_outcome(*pda, receiver@),
                payload_outcome(message@, *revert_options),
            ) == Err::<(), Errors>(error),
        },
        pda.deposit_paused ==> deposited == Err::<LamportTransfer, Errors>(Errors::DepositPaused),
        !pda.deposit_paused && all_zero(receiver@) ==> deposited == Err::<LamportTransfer, Errors>(
            Errors::EmptyReceiver,
        ),
{
    let transfer = match handle_sol(pda, ctx, amount, receiver, revert_options, deposit_fee) {
        Ok(transfer) => transfer,
        Err(error) => {
            return Err(error);
        },
    };
    match verify_payload_size(Some(message), revert_options) {
        Ok(()) => Ok(transfer),
        Err(error) => Err(error),
    }
}

/// Deposits tokens for `receiver` on the remote chain: the fee moves from the depositor to
/// the gateway, the tokens from the depositor's token account to the gateway's.
pub fn handle_spl(
    pda: &Pda,
    ctx: &DepositSplToken,
    amount: u64,
    receiver: [u8; 20],
    revert_options: &Option<RevertOptions>,
    deposit_fee: u64,
) -> (deposited: Result<TokenDeposit, Errors>)
    ensures
        match deposited {
            Ok(deposit) => token_deposit_outcome(*pda, *ctx, receiver@) is Ok && deposit == (
            TokenDeposit {
                fee: LamportTransfer { from: ctx.signer, to: ctx.pda, lamports: deposit_fee },
                tokens: TokenTransfer {
                    from: ctx.from,
                    to: ctx.to,
                    authority: ctx.signer,
                    amount,
                },
            }),
            Err(error) => token_deposit_outcome(*pda, *ctx, receiver@) == Err::<(), Errors>(error),
        },
{
    match check_deposit(pda, &receiver) {
        Ok(()) => {},
        Err(error) => {
            return Err(error);
        },
    }
    if ctx.whitelist_entry.is_none() {
        return Err(Errors::TokenNotWhitelisted);
    }
    let to_is_pda_ata = match get_associated_token_address(&ctx.pda, &ctx.mint_account) {
        Some(pda_ata) => array_eq(&pda_ata, &ctx.to),
        None => false,
    };
    if !to_is_pda_ata {
        return Err(Errors::DepositToAddressMismatch);
    }
    Ok(
        TokenDeposit {
            fee: LamportTransfer { from: ctx.signer, to: ctx.pda, lamports: deposit_fee },
            tokens: TokenTransfer { from: ctx.from, to: ctx.to, authority: ctx.signer, amount },
        },
    )
}

/// Deposits tokens and calls `receiver` on the remote chain with `message`.
pub fn handle_spl_with_call(
    pda: &Pda,
    ctx: &DepositSplToken,
    amount: u64,
    receiver: [u8; 20],
    message: &Vec<u8>,
    revert_options: &Option<RevertOptions>,
    deposit_fee: u64,
) -> (deposited: Result<TokenDeposit, Errors>)
    ensures
        match deposited {
            Ok(deposit) => and_then(
                token_deposit_outcome(*pda, *ctx, receiver@),
                payload_outcome(message@, *revert_options),
            ) is Ok && deposit == (TokenDeposit {
                fee: LamportTransfer { from: ctx.signer, to: ctx.pda, lamports: deposit_fee },
                tokens: TokenTransfer {
                    from: ctx.from,
                    to: ctx.to,
                    authority: ctx.signer,
                    amount,
                },
            }),
            Err(error) => and_then(
                token_deposit_outcome(*pda, *ctx, receiver@),
                payload_outcome(message@, *revert_options),
            ) == Err::<(), Errors>(error),
        },
{
    let deposit = match handle_spl(pda, ctx, amount, receiver, revert_options, deposit_fee) {
        Ok(deposit) => deposit,
        Err(error) => {
            return Err(error);
        },
    };
    match verify_payload_size(Some(message), revert_options) {
        Ok(()) => Ok(deposit),
        Err(error) => Err(error),
    }
}

/// What a call without value answers: the receiver must not be the all-zero address, and
/// the payload must fit.
pub open spec fn call_outcome(receiver: Seq<u8>, message: Seq<u8>, revert_options: Option<RevertOptions>) -> Result<
    (),
    Errors,
> {
    if all_zero(receiver) {
        Err(Errors::EmptyReceiver)
    } else {
        payload_outcome(message, revert_options)
    }
}

/// Calls `receiver` on the remote chain with `message`; no value moves.
pub fn handle_call(receiver: [u8; 20], message: &Vec<u8>, revert_options: &Option<RevertOptions>) -> (called:
    Result<(), Errors>)
    ensures
        called == call_outcome(receiver@, message@, *revert_options),
{
    if is_zero(&receiver) {
        return Err(Errors::EmptyReceiver);
    }
    verify_payload_size(Some(message), revert_options)
}

} // verus!
