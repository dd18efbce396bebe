//! A cross-chain settlement gateway: authenticated withdrawals and calls signed on a remote
//! chain, deposits towards it, and the relay of calls to connected programs.

pub mod bytes;
pub mod constants;
pub mod crypto;
pub mod errors;
pub mod state;
pub mod accounts;
pub mod utils;
pub mod contexts;
pub mod instructions;
pub mod laws;
pub mod program;
