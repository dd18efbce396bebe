//! The checks that every authenticated operation is built from.

pub mod prepare_account_metas;
pub mod recover_and_verify_eth_address;
pub mod validate_message;
pub mod validate_message_hash;
pub mod verify_and_update_nonce;
pub mod verify_ata_match;
pub mod verify_authority;
pub mod verify_payload_size;
