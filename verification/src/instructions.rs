//! The gateway's operations. Each one decides, from the state and what it is given, whether
//! the operation goes through, how the state changes, and what is to be done on the ledger.

pub mod admin;
pub mod deposit;
pub mod execute;
pub mod withdraw;
