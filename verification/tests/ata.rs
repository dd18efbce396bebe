use gateway::constants::{ASSOCIATED_TOKEN_PROGRAM_ID, TOKEN_PROGRAM_ID};
use gateway::errors::Errors;
use gateway::utils::verify_ata_match::{check_ata, get_associated_token_address, verify_ata_match};
use solana_program::pubkey::Pubkey;

#[test]
fn test_verify_ata_match_success() {
    // Arrange
    let owner = Pubkey::new_unique();
    let mint = Pubkey::new_unique();
    let expected_ata = spl_associated_token_account::get_associated_token_address(&owner, &mint);

    // Act
    let result = verify_ata_match(&owner.to_bytes(), &mint.to_bytes(), &expected_ata.to_bytes());

    // Assert
    assert!(result.is_ok());
}

#[test]
fn test_verify_ata_match_failure() {
    // Arrange
    let owner = Pubkey::new_unique();
    let mint = Pubkey::new_unique();

    // Act
    let wrong_ata = Pubkey::new_unique();
    let result = verify_ata_match(&owner.to_bytes(), &mint.to_bytes(), &wrong_ata.to_bytes());

    // Assert
    assert!(result.is_err());
}

#[test]
fn program_ids_are_the_ledgers() {
    assert_eq!(TOKEN_PROGRAM_ID, anchor_spl::token::ID.to_bytes());
    assert_eq!(ASSOCIATED_TOKEN_PROGRAM_ID, spl_associated_token_account::id().to_bytes());
}

#[test]
fn derived_address_is_the_ledgers() {
    for seed in 0u8..16 {
        let owner = Pubkey::new_from_array([seed; 32]);
        let mint = Pubkey::new_from_array([seed.wrapping_mul(17).wrapping_add(3); 32]);
        let expected = spl_associated_token_account::get_associated_token_address(&owner, &mint);
        let derived = get_associated_token_address(&owner.to_bytes(), &mint.to_bytes());
        assert_eq!(derived, Some(expected.to_bytes()));
        assert_ne!(derived, Some(owner.to_bytes()));
        assert_ne!(derived, Some(mint.to_bytes()));
    }
}

#[test]
fn derived_address_depends_on_owner_and_mint() {
    let a = get_associated_token_address(&[1u8; 32], &[2u8; 32]);
    let b = get_associated_token_address(&[2u8; 32], &[1u8; 32]);
    let c = get_associated_token_address(&[1u8; 32], &[3u8; 32]);
    assert!(a.is_some() && b.is_some() && c.is_some());
    assert_ne!(a, b);
    assert_ne!(a, c);
    assert_eq!(a, get_associated_token_address(&[1u8; 32], &[2u8; 32]));
}

#[test]
fn ata_mismatch_is_its_own_error() {
    let owner = [4u8; 32];
    let mint = [5u8; 32];
    let ata = get_associated_token_address(&owner, &mint).unwrap();
    assert_eq!(verify_ata_match(&owner, &mint, &ata), Ok(()));
    assert_eq!(verify_ata_match(&mint, &owner, &ata), Err(Errors::SPLAtaAndMintAddressMismatch));
    let mut off_by_one = ata;
    off_by_one[0] ^= 1;
    assert_eq!(
        verify_ata_match(&owner, &mint, &off_by_one),
        Err(Errors::SPLAtaAndMintAddressMismatch)
    );
}

#[test]
fn check_ata_compares_exactly() {
    assert_eq!(check_ata(Some([1u8; 32]), &[1u8; 32]), Ok(()));
    assert_eq!(check_ata(Some([1u8; 32]), &[2u8; 32]), Err(Errors::SPLAtaAndMintAddressMismatch));
    assert_eq!(check_ata(None, &[1u8; 32]), Err(Errors::SPLAtaAndMintAddressMismatch));
}
