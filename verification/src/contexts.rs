//! The accounts that each operation is given, as the identities and plain facts that the
//! gateway's decisions read of them.

use vstd::prelude::*;
use crate::state::{Pubkey, WhitelistEntry};

verus! {

/// Accounts of the one-time initialization.
#[derive(Clone, Copy, Debug, PartialEq, Eq)]
pub struct Initialize {
    /// Who initializes the gateway, and becomes its first authority.
    pub signer: Pubkey,
}

/// Accounts of a call relayed to a connected program with native value.
#[derive(Clone, Copy, Debug, PartialEq, Eq)]
pub struct Execute {
    /// Who submitted the operation and pays for it.
    pub signer: Pubkey,
    /// Address of the gateway's state account, which also holds its native balance.
    pub pda: Pubkey,
    /// The connected program to call.
    pub destination_program: Pubkey,
    /// The account of the connected program that receives the value.
    pub destination_program_pda: Pubkey,
}

/// Accounts of a nonce increment.
#[derive(Clone, Copy, Debug, PartialEq, Eq)]
pub struct IncrementNonce {
    pub signer: Pubkey,
}

/// Accounts of a deposit of native value.
#[derive(Clone, Copy, Debug, PartialEq, Eq)]
pub struct Deposit {
    /// Who deposits.
    pub signer: Pubkey,
    /// Address of the gateway's state account.
    pub pda: Pubkey,
}

/// Accounts of a deposit of tokens.
#[derive(Clone, Copy, Debug, PartialEq, Eq)]
pub struct DepositSplToken {
    /// Who deposits, and signs for the tokens.
    pub signer: Pubkey,
    /// Address of the gateway's state account.
    pub pda: Pubkey,
    /// The allow-list entry of the token, if the ledger holds one.
    pub whitelist_entry: Option<WhitelistEntry>,
    /// The mint of the token deposited.
    pub mint_account: Pubkey,
    /// The token account that the tokens leave.
    pub from: Pubkey,
    /// The token account that the tokens go to.
    pub to: Pubkey,
}

/// Accounts of a call without value.
#[derive(Clone, Copy, Debug, PartialEq, Eq)]
pub struct Call {
    pub signer: Pubkey,
}

/// Accounts of a withdrawal of native value.
#[derive(Clone, Copy, Debug, PartialEq, Eq)]
pub struct Withdraw {
    pub signer: Pubkey,
    /// Address of the gateway's state account.
    pub pda: Pubkey,
    /// Who receives the value.
    pub recipient: Pubkey,
}

/// Accounts of a withdrawal of tokens.
#[derive(Clone, Copy, Debug, PartialEq, Eq)]
pub struct WithdrawSPLToken {
    /// Who submitted the operation, and pays for a token account that has to be created.
    pub signer: Pubkey,
    /// Address of the gateway's state account.
    pub pda: Pubkey,
    /// The gateway's token account for the mint.
    pub pda_ata: Pubkey,
    /// The mint of the token withdrawn.
    pub mint_account: Pubkey,
    /// Who receives the tokens.
    pub recipient: Pubkey,
    /// The recipient's token account for the mint, which may not exist yet.
    pub recipient_ata: Pubkey,
    /// Native balance of the recipient's token account.
    pub recipient_ata_lamports: u64,
    /// Program that owns the recipient's token account.
    pub recipient_ata_owner: Pubkey,
    pub token_program: Pubkey,
    pub system_program: Pubkey,
}

/// Accounts of a call relayed to a connected program with tokens.
#[derive(Clone, Copy, Debug, PartialEq, Eq)]
pub struct ExecuteSPLToken {
    /// Who submitted the operation and pays for it.
    pub signer: Pubkey,
    /// Address of the gateway's state account.
    pub pda: Pubkey,
    /// The gateway's token account for the mint.
    pub pda_ata: Pubkey,
    /// The mint of the token sent along.
    pub mint_account: Pubkey,
    /// The connected program to call.
    pub destination_program: Pubkey,
    /// The account of the connected program that owns the receiving token account.
    pub destination_program_pda: Pubkey,
    /// The token account that receives the tokens.
    pub destination_program_pda_ata: Pubkey,
}

/// Accounts of a change of the trusted signer.
#[derive(Clone, Copy, Debug, PartialEq, Eq)]
pub struct UpdateTss {
    pub signer: Pubkey,
}

/// Accounts of a change of the authority.
#[derive(Clone, Copy, Debug, PartialEq, Eq)]
pub struct UpdateAuthority {
    pub signer: Pubkey,
}

/// Accounts of a reset of the nonce.
#[derive(Clone, Copy, Debug, PartialEq, Eq)]
pub struct ResetNonce {
    pub signer: Pubkey,
}

/// Accounts of pausing and unpausing deposits.
#[derive(Clone, Copy, Debug, PartialEq, Eq)]
pub struct UpdatePaused {
    pub signer: Pubkey,
}

/// Accounts of adding a token to the allow-list.
#[derive(Clone, Copy, Debug, PartialEq, Eq)]
pub struct Whitelist {
    /// Who submitted the operation; must be the authority where no signature is supplied.
    pub authority: Pubkey,
    /// The mint to allow.
    pub whitelist_candidate: Pubkey,
}

/// Accounts of removing a token from the allow-list.
#[derive(Clone, Copy, Debug, PartialEq, Eq)]
pub struct Unwhitelist {
    /// Who submitted the operation; must be the authority where no signature is supplied.
    pub authority: Pubkey,
    /// The mint to disallow.
    pub whitelist_candidate: Pubkey,
}

} // verus!
