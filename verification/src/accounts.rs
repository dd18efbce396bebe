//! Accounts as the gateway's decisions see them, and the ledger operations that a decision
//! asks for. The gateway decides; whoever drives it performs what was decided.

use vstd::prelude::*;
use crate::state::Pubkey;

verus! {

/// An account offered to a relayed call, with the access its sender asked for.
#[derive(Clone, Copy, Debug, PartialEq, Eq)]
pub struct AccountInfo {
    pub key: Pubkey,
    pub is_signer: bool,
    pub is_writable: bool,
}

/// An account as a relayed call names it.
#[derive(Clone, Copy, Debug, PartialEq, Eq)]
pub struct AccountMeta {
    pub pubkey: Pubkey,
    pub is_signer: bool,
    pub is_writable: bool,
}

/// A call to a connected program.
#[derive(Clone, Debug, PartialEq, Eq)]
pub struct Instruction {
    pub program_id: Pubkey,
    pub accounts: Vec<AccountMeta>,
    pub data: Vec<u8>,
}

/// A movement of native value between two accounts.
#[derive(Clone, Copy, Debug, PartialEq, Eq)]
pub struct LamportTransfer {
    pub from: Pubkey,
    pub to: Pubkey,
    pub lamports: u64,
}

/// A movement of tokens between two token accounts, signed for by `authority`.
#[derive(Clone, Copy, Debug, PartialEq, Eq)]
pub struct TokenTransfer {
    pub from: Pubkey,
    pub to: Pubkey,
    pub authority: Pubkey,
    pub amount: u64,
}

/// A movement of tokens that the token program checks against the mint and its decimals.
#[derive(Clone, Copy, Debug, PartialEq, Eq)]
pub struct TokenTransferChecked {
    pub from: Pubkey,
    pub mint: Pubkey,
    pub to: Pubkey,
    pub authority: Pubkey,
    pub amount: u64,
    pub decimals: u8,
}

/// The creation of the associated token account of `wallet` for `mint`, paid by `payer`.
#[derive(Clone, Copy, Debug, PartialEq, Eq)]
pub struct CreateAssociatedTokenAccount {
    pub payer: Pubkey,
    pub wallet: Pubkey,
    pub mint: Pubkey,
    pub token_program: Pubkey,
}

/// One thing that a decision asks of the ledger. Where a decision hands out several, they are
/// to be done in the order given.
#[derive(Clone, Copy, Debug, PartialEq, Eq)]
pub enum LedgerAction {
    CreateAssociatedTokenAccount(CreateAssociatedTokenAccount),
    TransferLamports(LamportTransfer),
    TransferTokensChecked(TokenTransferChecked),
}

} // verus!
