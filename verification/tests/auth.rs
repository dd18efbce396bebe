use gateway::errors::Errors;
use gateway::state::{InstructionId, Pda};
use gateway::utils::recover_and_verify_eth_address::{
    address_of_digest, check_address, recover_and_verify_eth_address, recover_eth_address, verify,
};
use gateway::utils::validate_message::{validate_message, validate_message_with};
use gateway::utils::validate_message_hash::canonical_bytes;
use gateway::utils::verify_and_update_nonce::verify_and_update_nonce;
use gateway::utils::verify_authority::verify_authority;
use libsecp256k1::{Message, PublicKey, SecretKey};
use solana_program::keccak::hash;

fn secret(byte: u8) -> SecretKey {
    let mut bytes = [0u8; 32];
    bytes[31] = byte;
    SecretKey::parse(&bytes).unwrap()
}

fn address_of(key: &SecretKey) -> [u8; 20] {
    let public = PublicKey::from_secret_key(key).serialize();
    let digest = hash(&public[1..65]).to_bytes();
    let mut address = [0u8; 20];
    address.copy_from_slice(&digest[12..32]);
    address
}

fn sign(key: &SecretKey, message_hash: &[u8; 32]) -> ([u8; 64], u8) {
    let (signature, recovery_id) = libsecp256k1::sign(&Message::parse(message_hash), key);
    (signature.serialize(), recovery_id.serialize())
}

fn state(tss: &SecretKey, nonce: u64) -> Pda {
    Pda {
        nonce,
        tss_address: address_of(tss),
        authority: [0xa0; 32],
        chain_id: 900,
        deposit_paused: false,
    }
}

#[test]
fn address_of_secret_key_one() {
    // the well-known address of the secret key 1
    let expected: [u8; 20] = [
        0x7e, 0x5f, 0x45, 0x52, 0x09, 0x1a, 0x69, 0x12, 0x5d, 0x5d, 0xfc, 0xb7, 0xb8, 0xc2, 0x65, 0x90,
        0x29, 0x39, 0x5b, 0xdf,
    ];
    let key = secret(1);
    let message_hash = hash(b"any message").to_bytes();
    let (signature, recovery_id) = sign(&key, &message_hash);
    assert_eq!(recover_eth_address(&message_hash, recovery_id, &signature), Ok(expected));
    assert_eq!(address_of(&key), expected);
}

#[test]
fn recovered_address_is_the_signers() {
    for byte in 1u8..6 {
        let key = secret(byte);
        let message_hash = hash(&[byte; 5]).to_bytes();
        let (signature, recovery_id) = sign(&key, &message_hash);
        let recovered = recover_eth_address(&message_hash, recovery_id, &signature).unwrap();
        assert_eq!(recovered, address_of(&key));
        assert_ne!(&recovered[..], &message_hash[..20]);
        assert_ne!(&recovered[..], &signature[..20]);
    }
}

#[test]
fn address_is_the_tail_of_the_digest() {
    let mut digest = [0u8; 32];
    for (i, byte) in digest.iter_mut().enumerate() {
        *byte = i as u8;
    }
    assert_eq!(
        address_of_digest(&digest),
        [12, 13, 14, 15, 16, 17, 18, 19, 20, 21, 22, 23, 24, 25, 26, 27, 28, 29, 30, 31]
    );
}

#[test]
fn addresses_are_compared_exactly() {
    let expected = [0x55u8; 20];
    assert_eq!(check_address(&expected, &expected), Ok(()));
    for place in 0..20 {
        let mut other = expected;
        other[place] ^= 0x01;
        assert_eq!(check_address(&other, &expected), Err(Errors::TSSAuthenticationFailed));
    }
}

#[test]
fn verify_accepts_the_expected_signer_only() {
    let key = secret(7);
    let message_hash = hash(b"payload").to_bytes();
    let (signature, recovery_id) = sign(&key, &message_hash);
    assert_eq!(verify(&message_hash, recovery_id, &signature, &address_of(&key)), Ok(()));
    assert_eq!(
        verify(&message_hash, recovery_id, &signature, &address_of(&secret(8))),
        Err(Errors::TSSAuthenticationFailed)
    );
    // another recovery id recovers another key, or none
    let flipped = verify(&message_hash, recovery_id ^ 1, &signature, &address_of(&key));
    assert!(flipped == Err(Errors::TSSAuthenticationFailed) || flipped == Err(Errors::RecoveryFailed));
}

#[test]
fn recovery_fails_on_malformed_input() {
    let message_hash = hash(b"payload").to_bytes();
    let (signature, _) = sign(&secret(7), &message_hash);
    // recovery ids are 0 to 3
    assert_eq!(recover_eth_address(&message_hash, 4, &signature), Err(Errors::RecoveryFailed));
    assert_eq!(recover_eth_address(&message_hash, 27, &signature), Err(Errors::RecoveryFailed));
    // r and s of all ones are no scalars of the curve
    assert_eq!(recover_eth_address(&message_hash, 0, &[0xff; 64]), Err(Errors::RecoveryFailed));
    // the zero signature recovers to nothing
    assert_eq!(recover_eth_address(&message_hash, 0, &[0u8; 64]), Err(Errors::RecoveryFailed));
    assert_eq!(
        verify(&message_hash, 0, &[0u8; 64], &address_of(&secret(7))),
        Err(Errors::RecoveryFailed)
    );
}

#[test]
fn signature_over_another_hash_is_another_signer() {
    let key = secret(9);
    let signed = hash(b"signed").to_bytes();
    let other = hash(b"other").to_bytes();
    let (signature, recovery_id) = sign(&key, &signed);
    let pda = state(&key, 0);
    assert_eq!(recover_and_verify_eth_address(&pda, &signed, recovery_id, &signature), Ok(()));
    let outcome = recover_and_verify_eth_address(&pda, &other, recovery_id, &signature);
    assert!(outcome == Err(Errors::TSSAuthenticationFailed) || outcome == Err(Errors::RecoveryFailed));
}

#[test]
fn nonce_advances_by_one_when_it_matches() {
    let mut pda = state(&secret(1), 41);
    assert_eq!(verify_and_update_nonce(&mut pda, 41), Ok(()));
    assert_eq!(pda.nonce, 42);
    assert_eq!(verify_and_update_nonce(&mut pda, 41), Err(Errors::NonceMismatch));
    assert_eq!(pda.nonce, 42);
    assert_eq!(verify_and_update_nonce(&mut pda, 43), Err(Errors::NonceMismatch));
    assert_eq!(pda.nonce, 42);
    assert_eq!(verify_and_update_nonce(&mut pda, 42), Ok(()));
    assert_eq!(pda.nonce, 43);
}

#[test]
fn nonce_check_touches_nothing_else() {
    let before = state(&secret(1), 5);
    let mut pda = before;
    assert_eq!(verify_and_update_nonce(&mut pda, 5), Ok(()));
    assert_eq!(pda, Pda { nonce: 6, ..before });
    let mut pda = before;
    assert_eq!(verify_and_update_nonce(&mut pda, 6), Err(Errors::NonceMismatch));
    assert_eq!(pda, before);
    let mut last = Pda { nonce: u64::MAX - 1, ..before };
    assert_eq!(verify_and_update_nonce(&mut last, u64::MAX - 1), Ok(()));
    assert_eq!(last.nonce, u64::MAX);
    assert_eq!(verify_and_update_nonce(&mut last, 0), Err(Errors::NonceMismatch));
}

#[test]
fn authority_is_compared_exactly() {
    let pda = state(&secret(1), 0);
    assert_eq!(verify_authority(&[0xa0; 32], &pda), Ok(()));
    let mut other = [0xa0u8; 32];
    other[31] = 0xa1;
    assert_eq!(verify_authority(&other, &pda), Err(Errors::SignerIsNotAuthority));
    assert_eq!(verify_authority(&[0u8; 32], &pda), Err(Errors::SignerIsNotAuthority));
}

#[test]
fn signed_message_is_accepted_once() {
    let tss = secret(3);
    let mut pda = state(&tss, 10);
    let recipient = [9u8; 32];
    let message_hash =
        hash(&canonical_bytes(InstructionId::Withdraw, 900, 10, Some(1000), &[&recipient])).to_bytes();
    let (signature, recovery_id) = sign(&tss, &message_hash);
    let first = validate_message(
        &mut pda,
        InstructionId::Withdraw,
        10,
        1000,
        &[&recipient],
        &message_hash,
        &signature,
        recovery_id,
    );
    assert_eq!(first, Ok(()));
    assert_eq!(pda.nonce, 11);
    let again = validate_message(
        &mut pda,
        InstructionId::Withdraw,
        10,
        1000,
        &[&recipient],
        &message_hash,
        &signature,
        recovery_id,
    );
    assert_eq!(again, Err(Errors::NonceMismatch));
    assert_eq!(pda.nonce, 11);
}

#[test]
fn tampered_data_is_a_hash_mismatch() {
    let tss = secret(3);
    let data = b"pay the bearer".to_vec();
    let program = [4u8; 32];
    let message_hash =
        hash(&canonical_bytes(InstructionId::ExecuteSol, 900, 0, Some(5), &[&program, &data])).to_bytes();
    let (signature, recovery_id) = sign(&tss, &message_hash);
    for place in 0..data.len() {
        let mut pda = state(&tss, 0);
        let mut tampered = data.clone();
        tampered[place] ^= 0x20;
        let outcome = validate_message(
            &mut pda,
            InstructionId::ExecuteSol,
            0,
            5,
            &[&program, &tampered],
            &message_hash,
            &signature,
            recovery_id,
        );
        assert_eq!(outcome, Err(Errors::MessageHashMismatch));
        // the nonce was the expected one and is used up
        assert_eq!(pda.nonce, 1);
    }
    let mut pda = state(&tss, 0);
    let untouched = validate_message(
        &mut pda,
        InstructionId::ExecuteSol,
        0,
        5,
        &[&program, &data],
        &message_hash,
        &signature,
        recovery_id,
    );
    assert_eq!(untouched, Ok(()));
}

#[test]
fn foreign_signature_is_refused() {
    let tss = secret(3);
    let stranger = secret(4);
    let mut pda = state(&tss, 0);
    let recipient = [9u8; 32];
    let message_hash =
        hash(&canonical_bytes(InstructionId::Withdraw, 900, 0, Some(1), &[&recipient])).to_bytes();
    let (signature, recovery_id) = sign(&stranger, &message_hash);
    let outcome = validate_message(
        &mut pda,
        InstructionId::Withdraw,
        0,
        1,
        &[&recipient],
        &message_hash,
        &signature,
        recovery_id,
    );
    assert_eq!(outcome, Err(Errors::TSSAuthenticationFailed));
    assert_eq!(pda.nonce, 1);
}

#[test]
fn checks_come_in_the_order_nonce_hash_signature() {
    let tss = secret(3);
    let recipient = [9u8; 32];
    let message_hash =
        hash(&canonical_bytes(InstructionId::Withdraw, 900, 0, Some(1), &[&recipient])).to_bytes();
    // wrong nonce, wrong hash and no signature: the nonce decides
    let mut pda = state(&tss, 1);
    let outcome = validate_message(
        &mut pda,
        InstructionId::Withdraw,
        0,
        2,
        &[&recipient],
        &message_hash,
        &[0u8; 64],
        0,
    );
    assert_eq!(outcome, Err(Errors::NonceMismatch));
    assert_eq!(pda.nonce, 1);
    // right nonce, wrong hash and no signature: the hash decides
    let mut pda = state(&tss, 0);
    let outcome = validate_message(
        &mut pda,
        InstructionId::Withdraw,
        0,
        2,
        &[&recipient],
        &message_hash,
        &[0u8; 64],
        0,
    );
    assert_eq!(outcome, Err(Errors::MessageHashMismatch));
    assert_eq!(pda.nonce, 1);
    // right nonce, right hash and no signature: the recovery decides
    let mut pda = state(&tss, 0);
    let outcome = validate_message(
        &mut pda,
        InstructionId::Withdraw,
        0,
        1,
        &[&recipient],
        &message_hash,
        &[0u8; 64],
        0,
    );
    assert_eq!(outcome, Err(Errors::RecoveryFailed));
    assert_eq!(pda.nonce, 1);
}

#[test]
fn message_without_amount_is_its_own_message() {
    let tss = secret(3);
    let mint = [6u8; 32];
    let message_hash =
        hash(&canonical_bytes(InstructionId::WhitelistSplToken, 900, 0, None, &[&mint])).to_bytes();
    let (signature, recovery_id) = sign(&tss, &message_hash);
    let mut pda = state(&tss, 0);
    let outcome = validate_message_with(
        &mut pda,
        InstructionId::WhitelistSplToken,
        0,
        None,
        &[&mint],
        &message_hash,
        &signature,
        recovery_id,
    );
    assert_eq!(outcome, Ok(()));
    let mut pda = state(&tss, 0);
    let outcome = validate_message_with(
        &mut pda,
        InstructionId::WhitelistSplToken,
        0,
        Some(0),
        &[&mint],
        &message_hash,
        &signature,
        recovery_id,
    );
    assert_eq!(outcome, Err(Errors::MessageHashMismatch));
}

#[test]
fn signature_for_one_chain_fails_on_another() {
    let tss = secret(3);
    let recipient = [9u8; 32];
    let message_hash =
        hash(&canonical_bytes(InstructionId::Withdraw, 900, 0, Some(1), &[&recipient])).to_bytes();
    let (signature, recovery_id) = sign(&tss, &message_hash);
    let mut pda = Pda { chain_id: 901, ..state(&tss, 0) };
    let outcome = validate_message(
        &mut pda,
        InstructionId::Withdraw,
        0,
        1,
        &[&recipient],
        &message_hash,
        &signature,
        recovery_id,
    );
    assert_eq!(outcome, Err(Errors::MessageHashMismatch));
}
