use gateway::accounts::{CreateAssociatedTokenAccount, LamportTransfer, LedgerAction, TokenTransferChecked};
use gateway::constants::DEFAULT_GAS_COST;
use gateway::contexts::{Withdraw, WithdrawSPLToken};
use gateway::errors::Errors;
use gateway::instructions::withdraw::{reimbursement, settle, TokenWithdrawal};
use gateway::program::{withdraw, withdraw_spl_token};
use gateway::state::{InstructionId, Pda};
use gateway::utils::validate_message_hash::canonical_bytes;
use gateway::utils::verify_ata_match::get_associated_token_address;
use libsecp256k1::{Message, PublicKey, SecretKey};
use solana_program::keccak::hash;

const SIGNER: [u8; 32] = [1u8; 32];
const GATEWAY: [u8; 32] = [2u8; 32];
const RECIPIENT: [u8; 32] = [3u8; 32];
const MINT: [u8; 32] = [5u8; 32];
const TOKEN_PROGRAM: [u8; 32] = gateway::constants::TOKEN_PROGRAM_ID;
const SYSTEM_PROGRAM: [u8; 32] = [0u8; 32];

fn tss() -> SecretKey {
    SecretKey::parse(&[0x41u8; 32]).unwrap()
}

fn address_of(key: &SecretKey) -> [u8; 20] {
    let public = PublicKey::from_secret_key(key).serialize();
    let digest = hash(&public[1..65]).to_bytes();
    let mut address = [0u8; 20];
    address.copy_from_slice(&digest[12..32]);
    address
}

fn sign(key: &SecretKey, message_hash: &[u8; 32]) -> ([u8; 64], u8) {
    let (signature, recovery_id) = libsecp256k1::sign(&Message::parse(message_hash), key);
    (signature.serialize(), recovery_id.serialize())
}

fn state(nonce: u64) -> Pda {
    Pda { nonce, tss_address: address_of(&tss()), authority: [0xa0; 32], chain_id: 900, deposit_paused: false }
}

fn token_ctx(lamports: u64, owner: [u8; 32]) -> WithdrawSPLToken {
    WithdrawSPLToken {
        signer: SIGNER,
        pda: GATEWAY,
        pda_ata: get_associated_token_address(&GATEWAY, &MINT).unwrap(),
        mint_account: MINT,
        recipient: RECIPIENT,
        recipient_ata: get_associated_token_address(&RECIPIENT, &MINT).unwrap(),
        recipient_ata_lamports: lamports,
        recipient_ata_owner: owner,
        token_program: TOKEN_PROGRAM,
        system_program: SYSTEM_PROGRAM,
    }
}

fn token_hash(ctx: &WithdrawSPLToken, nonce: u64, amount: u64) -> [u8; 32] {
    hash(&canonical_bytes(
        InstructionId::WithdrawSplToken,
        900,
        nonce,
        Some(amount),
        &[&ctx.mint_account, &ctx.recipient_ata],
    ))
    .to_bytes()
}

#[test]
fn withdraw_moves_the_amount_to_the_recipient() {
    let mut pda = state(8);
    let ctx = Withdraw { signer: SIGNER, pda: GATEWAY, recipient: RECIPIENT };
    let message_hash =
        hash(&canonical_bytes(InstructionId::Withdraw, 900, 8, Some(250), &[&RECIPIENT])).to_bytes();
    let (signature, recovery_id) = sign(&tss(), &message_hash);
    assert_eq!(
        withdraw(&mut pda, &ctx, 250, signature, recovery_id, message_hash, 8),
        Ok(LamportTransfer { from: GATEWAY, to: RECIPIENT, lamports: 250 })
    );
    assert_eq!(pda, Pda { nonce: 9, ..state(8) });
    assert_eq!(
        withdraw(&mut pda, &ctx, 250, signature, recovery_id, message_hash, 8),
        Err(Errors::NonceMismatch)
    );
}

#[test]
fn withdraw_to_another_recipient_is_refused() {
    let mut pda = state(8);
    let message_hash =
        hash(&canonical_bytes(InstructionId::Withdraw, 900, 8, Some(250), &[&RECIPIENT])).to_bytes();
    let (signature, recovery_id) = sign(&tss(), &message_hash);
    let thief = Withdraw { signer: SIGNER, pda: GATEWAY, recipient: SIGNER };
    assert_eq!(
        withdraw(&mut pda, &thief, 250, signature, recovery_id, message_hash, 8),
        Err(Errors::MessageHashMismatch)
    );
}

#[test]
fn withdraw_without_signature_fails_the_recovery() {
    let mut pda = state(8);
    let ctx = Withdraw { signer: SIGNER, pda: GATEWAY, recipient: RECIPIENT };
    let message_hash =
        hash(&canonical_bytes(InstructionId::Withdraw, 900, 8, Some(250), &[&RECIPIENT])).to_bytes();
    assert_eq!(
        withdraw(&mut pda, &ctx, 250, [0u8; 64], 0, message_hash, 8),
        Err(Errors::RecoveryFailed)
    );
}

#[test]
fn token_withdrawal_creates_a_missing_account() {
    let mut pda = state(0);
    let ctx = token_ctx(0, SYSTEM_PROGRAM);
    let message_hash = token_hash(&ctx, 0, 40);
    let (signature, recovery_id) = sign(&tss(), &message_hash);
    let withdrawal = withdraw_spl_token(&mut pda, &ctx, 6, 40, signature, recovery_id, message_hash, 0);
    assert_eq!(
        withdrawal,
        Ok(TokenWithdrawal {
            create_recipient_ata: Some(CreateAssociatedTokenAccount {
                payer: SIGNER,
                wallet: RECIPIENT,
                mint: MINT,
                token_program: TOKEN_PROGRAM,
            }),
            transfer: TokenTransferChecked {
                from: ctx.pda_ata,
                mint: MINT,
                to: ctx.recipient_ata,
                authority: GATEWAY,
                amount: 40,
                decimals: 6,
            },
        })
    );
    assert_eq!(pda.nonce, 1);
    // the creation took 2_039_280 lamports from the fee payer
    assert_eq!(
        reimbursement(&ctx, Some((10_000_000, 7_960_720))),
        LamportTransfer { from: GATEWAY, to: SIGNER, lamports: 5000 + 2_039_280 }
    );
}

#[test]
fn token_withdrawal_to_an_existing_account_creates_nothing() {
    let mut pda = state(0);
    let ctx = token_ctx(2_039_280, TOKEN_PROGRAM);
    let message_hash = token_hash(&ctx, 0, 40);
    let (signature, recovery_id) = sign(&tss(), &message_hash);
    let withdrawal =
        withdraw_spl_token(&mut pda, &ctx, 6, 40, signature, recovery_id, message_hash, 0).unwrap();
    assert_eq!(withdrawal.create_recipient_ata, None);
    assert_eq!(withdrawal.transfer.amount, 40);
    assert_eq!(
        reimbursement(&ctx, None),
        LamportTransfer { from: GATEWAY, to: SIGNER, lamports: DEFAULT_GAS_COST }
    );
}

#[test]
fn account_is_missing_on_either_sign() {
    for (lamports, owner, missing) in [
        (0, TOKEN_PROGRAM, true),
        (5, SYSTEM_PROGRAM, true),
        (0, SYSTEM_PROGRAM, true),
        (5, TOKEN_PROGRAM, false),
    ] {
        let mut pda = state(0);
        let ctx = token_ctx(lamports, owner);
        let message_hash = token_hash(&ctx, 0, 1);
        let (signature, recovery_id) = sign(&tss(), &message_hash);
        let withdrawal =
            withdraw_spl_token(&mut pda, &ctx, 0, 1, signature, recovery_id, message_hash, 0).unwrap();
        assert_eq!(withdrawal.create_recipient_ata.is_some(), missing);
    }
}

#[test]
fn reimbursement_adds_cost_to_the_fixed_part() {
    let ctx = token_ctx(0, SYSTEM_PROGRAM);
    assert_eq!(reimbursement(&ctx, Some((100, 100))).lamports, 5000);
    assert_eq!(reimbursement(&ctx, Some((100, 0))).lamports, 5100);
    assert_eq!(reimbursement(&ctx, Some((u64::MAX - 5000, 0))).lamports, u64::MAX);
    assert_eq!(reimbursement(&ctx, Some((7, 3))), LamportTransfer { from: GATEWAY, to: SIGNER, lamports: 5004 });
}

#[test]
fn token_withdrawal_checks_the_token_accounts() {
    let mut wrong_source = token_ctx(1, TOKEN_PROGRAM);
    wrong_source.pda_ata = [0x77; 32];
    let message_hash = token_hash(&wrong_source, 0, 40);
    let (signature, recovery_id) = sign(&tss(), &message_hash);
    let mut pda = state(0);
    assert_eq!(
        withdraw_spl_token(&mut pda, &wrong_source, 6, 40, signature, recovery_id, message_hash, 0),
        Err(Errors::SPLAtaAndMintAddressMismatch)
    );
    assert_eq!(pda.nonce, 1);

    let mut wrong_recipient = token_ctx(1, TOKEN_PROGRAM);
    wrong_recipient.recipient = SIGNER;
    let message_hash = token_hash(&wrong_recipient, 0, 40);
    let (signature, recovery_id) = sign(&tss(), &message_hash);
    let mut pda = state(0);
    assert_eq!(
        withdraw_spl_token(&mut pda, &wrong_recipient, 6, 40, signature, recovery_id, message_hash, 0),
        Err(Errors::SPLAtaAndMintAddressMismatch)
    );
}

#[test]
fn token_withdrawal_is_bound_to_mint_and_account() {
    let ctx = token_ctx(1, TOKEN_PROGRAM);
    let message_hash = token_hash(&ctx, 0, 40);
    let (signature, recovery_id) = sign(&tss(), &message_hash);
    let mut other = ctx;
    other.recipient_ata = get_associated_token_address(&SIGNER, &MINT).unwrap();
    other.recipient = SIGNER;
    let mut pda = state(0);
    assert_eq!(
        withdraw_spl_token(&mut pda, &other, 6, 40, signature, recovery_id, message_hash, 0),
        Err(Errors::MessageHashMismatch)
    );
    // a signature for native value withdraws no tokens
    let native = hash(&canonical_bytes(InstructionId::Withdraw, 900, 0, Some(40), &[&MINT, &ctx.recipient_ata]))
        .to_bytes();
    let (signature, recovery_id) = sign(&tss(), &native);
    let mut pda = state(0);
    assert_eq!(
        withdraw_spl_token(&mut pda, &ctx, 6, 40, signature, recovery_id, native, 0),
        Err(Errors::MessageHashMismatch)
    );
}

#[test]
fn settlement_pays_back_before_the_tokens_move() {
    let mut pda = state(0);
    let ctx = token_ctx(0, SYSTEM_PROGRAM);
    let message_hash = token_hash(&ctx, 0, 40);
    let (signature, recovery_id) = sign(&tss(), &message_hash);
    let withdrawal =
        withdraw_spl_token(&mut pda, &ctx, 6, 40, signature, recovery_id, message_hash, 0).unwrap();
    assert!(withdrawal.create_recipient_ata.is_some());
    let actions = settle(&withdrawal, &ctx, Some((10_000_000, 7_960_720)));
    assert_eq!(
        actions,
        vec![
            LedgerAction::TransferLamports(LamportTransfer {
                from: GATEWAY,
                to: SIGNER,
                lamports: 5000 + 2_039_280,
            }),
            LedgerAction::TransferTokensChecked(TokenTransferChecked {
                from: ctx.pda_ata,
                mint: MINT,
                to: ctx.recipient_ata,
                authority: GATEWAY,
                amount: 40,
                decimals: 6,
            }),
        ]
    );
    // over the whole withdrawal the fee payer gains the fixed part
    let refund = reimbursement(&ctx, Some((10_000_000, 7_960_720)));
    assert_eq!(7_960_720 + refund.lamports, 10_000_000 + DEFAULT_GAS_COST);
}

#[test]
fn settlement_counts_no_cost_where_nothing_was_created() {
    let mut pda = state(0);
    let ctx = token_ctx(2_039_280, TOKEN_PROGRAM);
    let message_hash = token_hash(&ctx, 0, 40);
    let (signature, recovery_id) = sign(&tss(), &message_hash);
    let withdrawal =
        withdraw_spl_token(&mut pda, &ctx, 6, 40, signature, recovery_id, message_hash, 0).unwrap();
    assert_eq!(withdrawal.create_recipient_ata, None);
    for balances in [None, Some((500, 100)), Some((100, 500))] {
        let actions = settle(&withdrawal, &ctx, balances);
        assert_eq!(actions.len(), 2);
        assert_eq!(
            actions[0],
            LedgerAction::TransferLamports(LamportTransfer { from: GATEWAY, to: SIGNER, lamports: 5000 })
        );
        assert_eq!(actions[1], LedgerAction::TransferTokensChecked(withdrawal.transfer));
    }
}

#[test]
fn refused_token_withdrawal_hands_out_nothing() {
    let ctx = token_ctx(0, SYSTEM_PROGRAM);
    let message_hash = token_hash(&ctx, 0, 40);
    let (signature, recovery_id) = sign(&tss(), &message_hash);
    // another amount than the signed one, with the right signature and without any
    for signature in [signature, [0u8; 64], [0xff; 64]] {
        let mut pda = state(0);
        assert_eq!(
            withdraw_spl_token(&mut pda, &ctx, 6, 41, signature, recovery_id, message_hash, 0),
            Err(Errors::MessageHashMismatch)
        );
    }
}
