use gateway::bytes::put_u64_be;
use gateway::errors::Errors;
use gateway::state::InstructionId;
use gateway::utils::validate_message_hash::{canonical_bytes, check_message_hash, validate_message_hash};
use solana_program::keccak::hash;

#[test]
fn it_works() {
    let nonce: u64 = 0;
    let amount: u64 = 500_000;
    let mut concatenated_buffer = Vec::new();
    put_u64_be(&mut concatenated_buffer, nonce);
    put_u64_be(&mut concatenated_buffer, amount);
    println!("concatenated_buffer: {:?}", concatenated_buffer);

    let message_hash = hash(&concatenated_buffer[..]).to_bytes();
    println!("message_hash: {:?}", message_hash);
    assert_eq!(concatenated_buffer, vec![0, 0, 0, 0, 0, 0, 0, 0, 0, 0, 0, 0, 0, 7, 161, 32]);
    assert_eq!(
        message_hash,
        [
            142, 25, 131, 77, 142, 207, 134, 222, 176, 73, 214, 129, 147, 199, 193, 106, 204, 184,
            242, 80, 140, 62, 181, 116, 180, 34, 239, 49, 46, 177, 77, 174
        ]
    );
}

#[test]
fn canonical_bytes_of_a_withdrawal() {
    let recipient = [9u8; 32];
    let bytes = canonical_bytes(InstructionId::Withdraw, 900, 0, Some(1000), &[&recipient]);
    let expected: Vec<u8> = vec![
        90, 69, 84, 65, 67, 72, 65, 73, 78, 1, 0, 0, 0, 0, 0, 0, 3, 132, 0, 0, 0, 0, 0, 0, 0, 0, 0, 0,
        0, 0, 0, 0, 3, 232, 9, 9, 9, 9, 9, 9, 9, 9, 9, 9, 9, 9, 9, 9, 9, 9, 9, 9, 9, 9, 9, 9, 9, 9, 9,
        9, 9, 9, 9, 9, 9, 9,
    ];
    assert_eq!(bytes, expected);
    assert_eq!(&bytes[..9], b"ZETACHAIN");
}

#[test]
fn canonical_bytes_without_amount() {
    let mint = [3u8; 32];
    let bytes = canonical_bytes(InstructionId::WhitelistSplToken, 1, 2, None, &[&mint]);
    let mut expected = b"ZETACHAIN".to_vec();
    expected.push(3);
    expected.extend_from_slice(&1u64.to_be_bytes());
    expected.extend_from_slice(&2u64.to_be_bytes());
    expected.extend_from_slice(&mint);
    assert_eq!(bytes, expected);
    assert_eq!(bytes.len(), 9 + 1 + 8 + 8 + 32);
}

#[test]
fn canonical_bytes_keep_the_order_of_the_parts() {
    let a: &[u8] = &[1, 2];
    let b: &[u8] = &[];
    let c: &[u8] = &[3];
    let bytes = canonical_bytes(InstructionId::ExecuteSol, 0, 0, Some(0), &[a, b, c]);
    assert_eq!(&bytes[34..], &[1, 2, 3]);
    let swapped = canonical_bytes(InstructionId::ExecuteSol, 0, 0, Some(0), &[c, b, a]);
    assert_eq!(&swapped[34..], &[3, 1, 2]);
    let none = canonical_bytes(InstructionId::ExecuteSol, 0, 0, Some(0), &[]);
    assert_eq!(none.len(), 34);
}

#[test]
fn kinds_give_different_bytes() {
    let forward = canonical_bytes(InstructionId::ExecuteSol, 1, 1, Some(1), &[&[1u8; 32]]);
    let revert = canonical_bytes(InstructionId::ExecuteSolRevert, 1, 1, Some(1), &[&[1u8; 32]]);
    assert_ne!(forward, revert);
    assert_eq!(forward[9], 5);
    assert_eq!(revert[9], 8);
    assert_eq!(forward[10..], revert[10..]);
}

#[test]
fn hash_of_a_withdrawal_is_keccak() {
    let recipient = [9u8; 32];
    let expected_hash: [u8; 32] = [
        155, 127, 101, 236, 101, 95, 142, 137, 171, 164, 39, 150, 169, 38, 195, 247, 211, 106, 156,
        140, 176, 103, 255, 201, 197, 95, 56, 226, 228, 7, 201, 168,
    ];
    assert_eq!(
        validate_message_hash(InstructionId::Withdraw, 900, 0, Some(1000), &[&recipient], &expected_hash),
        Ok(())
    );
}

#[test]
fn hash_of_a_nonce_increment_is_keccak() {
    let expected_hash: [u8; 32] = [
        85, 76, 36, 133, 79, 74, 130, 239, 24, 135, 183, 63, 31, 110, 160, 234, 208, 67, 124, 209,
        252, 142, 213, 3, 154, 138, 174, 37, 211, 217, 21, 33,
    ];
    assert_eq!(
        validate_message_hash(InstructionId::IncrementNonce, 900, 3, Some(7), &[], &expected_hash),
        Ok(())
    );
}

#[test]
fn hash_of_other_bytes_is_refused() {
    let recipient = [9u8; 32];
    let good = hash(&canonical_bytes(InstructionId::Withdraw, 900, 0, Some(1000), &[&recipient])).to_bytes();
    let check = |id, chain, nonce, amount, extra: &[u8; 32]| {
        validate_message_hash(id, chain, nonce, amount, &[extra], &good)
    };
    assert_eq!(check(InstructionId::Withdraw, 900, 0, Some(1000), &recipient), Ok(()));
    let mismatch = Err(Errors::MessageHashMismatch);
    assert_eq!(check(InstructionId::WithdrawSplToken, 900, 0, Some(1000), &recipient), mismatch);
    assert_eq!(check(InstructionId::Withdraw, 901, 0, Some(1000), &recipient), mismatch);
    assert_eq!(check(InstructionId::Withdraw, 900, 1, Some(1000), &recipient), mismatch);
    assert_eq!(check(InstructionId::Withdraw, 900, 0, Some(1001), &recipient), mismatch);
    assert_eq!(check(InstructionId::Withdraw, 900, 0, None, &recipient), mismatch);
    let mut other = recipient;
    other[17] ^= 0x80;
    assert_eq!(check(InstructionId::Withdraw, 900, 0, Some(1000), &other), mismatch);
    // the hash of the message is not the message hashed twice, nor the bytes themselves
    let mut as_hash = [0u8; 32];
    as_hash.copy_from_slice(&canonical_bytes(InstructionId::Withdraw, 900, 0, Some(1000), &[&recipient])[..32]);
    assert_eq!(
        validate_message_hash(InstructionId::Withdraw, 900, 0, Some(1000), &[&recipient], &as_hash),
        mismatch
    );
}

#[test]
fn supplied_and_computed_hash_are_compared_exactly() {
    let computed = [7u8; 32];
    assert_eq!(check_message_hash(&computed, &computed), Ok(()));
    for place in 0..32 {
        let mut supplied = computed;
        supplied[place] ^= 1;
        assert_eq!(check_message_hash(&supplied, &computed), Err(Errors::MessageHashMismatch));
    }
}
